//! Marshalling of text into wide, terminated buffers.

use vstd::prelude::*;
use vstd::std_specs::iter::IteratorSpec;

verus! {

broadcast use vstd::string::group_string_axioms;

/// The element that ends every marshalled buffer.
pub const TERMINATOR: u16 = 0;

/// True of a code unit that is one half of a surrogate pair.
pub open spec fn is_surrogate(unit: u16) -> bool {
    0xD800 <= unit <= 0xDFFF
}

/// True of a code unit that opens a surrogate pair.
pub open spec fn is_high_surrogate(unit: u16) -> bool {
    0xD800 <= unit <= 0xDBFF
}

/// True of a code unit that closes a surrogate pair.
pub open spec fn is_low_surrogate(unit: u16) -> bool {
    0xDC00 <= unit <= 0xDFFF
}

/// The code units of one character: the scalar itself where it fits in
/// sixteen bits, else a surrogate pair that splits the twenty bits of
/// `scalar - 0x10000` in two halves.
pub open spec fn encode_char(c: char) -> Seq<u16> {
    let scalar = c as u32 as int;
    if scalar < 0x10000 {
        seq![scalar as u16]
    } else {
        seq![
            (0xD800 + (scalar - 0x10000) / 0x400) as u16,
            (0xDC00 + (scalar - 0x10000) % 0x400) as u16,
        ]
    }
}

/// The code units of a text: those of its characters, in order.
pub open spec fn encode_text(text: Seq<char>) -> Seq<u16>
    decreases text.len(),
{
    if text.len() == 0 {
        Seq::empty()
    } else {
        encode_char(text[0]) + encode_text(text.drop_first())
    }
}

/// The marshalled form of a text: its code units and one terminator.
pub open spec fn wide_text(text: Seq<char>) -> Seq<u16> {
    encode_text(text).push(TERMINATOR)
}

/// The scalar that a surrogate pair stands for.
pub open spec fn pair_scalar(high: u16, low: u16) -> int {
    0x10000 + (high - 0xD800) * 0x400 + (low - 0xDC00)
}

/// The text that a sequence of code units stands for, or `None` where a
/// surrogate stands without its partner.
pub open spec fn decode_units(units: Seq<u16>) -> Option<Seq<char>>
    decreases units.len(),
{
    if units.len() == 0 {
        Some(Seq::empty())
    } else if !is_surrogate(units[0]) {
        match decode_units(units.drop_first()) {
            Some(rest) => Some(seq![units[0] as char] + rest),
            None => None,
        }
    } else if is_high_surrogate(units[0]) && units.len() >= 2 && is_low_surrogate(units[1]) {
        match decode_units(units.subrange(2, units.len() as int)) {
            Some(rest) => Some(seq![pair_scalar(units[0], units[1]) as char] + rest),
            None => None,
        }
    } else {
        None
    }
}

/// The text of a marshalled buffer: what its code units before the final
/// terminator decode to. `None` for a buffer that does not end in a
/// terminator or whose units do not decode.
pub open spec fn decode_wide(buffer: Seq<u16>) -> Option<Seq<char>> {
    if buffer.len() > 0 && buffer.last() == TERMINATOR {
        decode_units(buffer.drop_last())
    } else {
        None
    }
}

/// Encoding a text and one more character at its end appends that
/// character's code units.
pub proof fn lemma_encode_text_push(text: Seq<char>, c: char)
    ensures
        encode_text(text.push(c)) == encode_text(text) + encode_char(c),
    decreases text.len(),
{
    let longer = text.push(c);
    if text.len() == 0 {
        assert(longer.drop_first() =~= Seq::<char>::empty());
        assert(encode_text(longer.drop_first()) =~= Seq::<u16>::empty());
        assert(encode_text(longer) =~= encode_char(c));
    } else {
        assert(longer.drop_first() =~= text.drop_first().push(c));
        lemma_encode_text_push(text.drop_first(), c);
        assert(encode_text(longer) =~= encode_text(text) + encode_char(c));
    }
}

/// A character is one or two code units, and none of them is the
/// terminator unless the character is NUL.
pub proof fn lemma_encode_char_shape(c: char)
    ensures
        1 <= encode_char(c).len() <= 2,
        forall|i: int|
            0 <= i < encode_char(c).len() && #[trigger] encode_char(c)[i] == TERMINATOR ==> c
                == '\0',
{
    assert(c as u32 == 0 ==> c == '\0') by {
        vstd::utf8::char_u32_cast(c, c as u32);
        vstd::utf8::char_u32_cast('\0', 0u32);
    }
}

/// In the code units of a text without a NUL character no terminator
/// occurs: whoever reads the marshalled buffer up to its first terminator
/// reads the whole text.
pub proof fn lemma_terminator_only_at_end(text: Seq<char>)
    requires
        forall|i: int| 0 <= i < text.len() ==> text[i] != '\0',
    ensures
        forall|j: int| 0 <= j < encode_text(text).len() ==> encode_text(text)[j] != TERMINATOR,
    decreases text.len(),
{
    if text.len() > 0 {
        let tail = text.drop_first();
        assert forall|i: int| 0 <= i < tail.len() implies tail[i] != '\0' by {
            assert(tail[i] == text[i + 1]);
        }
        lemma_terminator_only_at_end(tail);
        lemma_encode_char_shape(text[0]);
        let head = encode_char(text[0]);
        assert forall|j: int| 0 <= j < encode_text(text).len() implies encode_text(text)[j]
            != TERMINATOR by {
            if j < head.len() {
                assert(encode_text(text)[j] == head[j]);
            } else {
                assert(encode_text(text)[j] == encode_text(tail)[j - head.len()]);
            }
        }
    }
}

/// Decoding the code units of one character, followed by any units,
/// gives that character and then what the following units decode to.
proof fn lemma_decode_after_char(c: char, rest: Seq<u16>)
    ensures
        decode_units(encode_char(c) + rest) == match decode_units(rest) {
            Some(tail) => Some(seq![c] + tail),
            None => None,
        },
{
    let scalar = c as u32 as int;
    let units = encode_char(c) + rest;
    vstd::utf8::char_u32_cast(c, c as u32);
    if scalar < 0x10000 {
        assert(units.drop_first() =~= rest);
    } else {
        assert(units.subrange(2, units.len() as int) =~= rest);
        assert(pair_scalar(units[0], units[1]) == scalar);
    }
}

/// Decoding what a text encodes to gives the text back.
pub proof fn lemma_units_round_trip(text: Seq<char>)
    ensures
        decode_units(encode_text(text)) == Some(text),
    decreases text.len(),
{
    if text.len() > 0 {
        lemma_units_round_trip(text.drop_first());
        lemma_decode_after_char(text[0], encode_text(text.drop_first()));
        assert(seq![text[0]] + text.drop_first() =~= text);
    }
}

/// Marshalling is faithful: the buffer made for a text, read up to its
/// final terminator, decodes to that text.
pub proof fn lemma_wide_round_trip(text: Seq<char>)
    ensures
        decode_wide(wide_text(text)) == Some(text),
{
    lemma_units_round_trip(text);
    assert(wide_text(text).drop_last() =~= encode_text(text));
}

/// Marshalling loses nothing: two texts with the same buffer are the
/// same text.
pub proof fn lemma_wide_text_injective(a: Seq<char>, b: Seq<char>)
    requires
        wide_text(a) == wide_text(b),
    ensures
        a == b,
{
    lemma_wide_round_trip(a);
    lemma_wide_round_trip(b);
}

/// Appends the code units of one character to a buffer.
pub fn push_wide_char(buffer: &mut Vec<u16>, c: char)
    ensures
        final(buffer)@ == old(buffer)@ + encode_char(c),
{
    let scalar: u32 = c as u32;
    if scalar < 0x10000 {
        buffer.push(scalar as u16);
        assert(final(buffer)@ =~= old(buffer)@ + encode_char(c));
    } else {
        let offset: u32 = scalar - 0x10000;
        let high: u32 = 0xD800 + offset / 0x400;
        let low: u32 = 0xDC00 + offset % 0x400;
        buffer.push(high as u16);
        buffer.push(low as u16);
        assert(final(buffer)@ =~= old(buffer)@ + encode_char(c));
    }
}

/// Marshals a text for a wide-character entry point: a freshly owned
/// buffer of the text's code units, ended by one terminator. The caller
/// keeps the buffer alive for as long as its address is in use.
pub fn to_wide_chars(s: &str) -> (buffer: Vec<u16>)
    ensures
        buffer@ == wide_text(s@),
        buffer@.len() >= 1,
        buffer@.last() == TERMINATOR,
        decode_wide(buffer@) == Some(s@),
{
    let mut buffer: Vec<u16> = Vec::new();
    let mut rest = s.chars();
    let ghost mut done: Seq<char> = Seq::empty();
    loop
        invariant
            rest.obeys_prophetic_iter_laws(),
            rest.decrease() is Some,
            done + rest.remaining() == s@,
            buffer@ == encode_text(done),
        ensures
            buffer@ == encode_text(s@),
        decreases rest.decrease()->0,
    {
        let ghost before = rest.remaining();
        match rest.next() {
            Some(c) => {
                proof {
                    lemma_encode_text_push(done, c);
                    assert(done.push(c) + before.drop_first() =~= done + before);
                    done = done.push(c);
                }
                push_wide_char(&mut buffer, c);
            },
            None => {
                assert(done + before =~= done);
                break ;
            },
        }
    }
    proof {
        lemma_wide_round_trip(s@);
    }
    buffer.push(TERMINATOR);
    buffer
}

} // verus!
