use vgrl_launcher::wide::{push_wide_char, to_wide_chars, TERMINATOR};

fn std_wide(s: &str) -> Vec<u16> {
    let mut units: Vec<u16> = s.encode_utf16().collect();
    units.push(0);
    units
}

fn decoded(buffer: &[u16]) -> String {
    assert!(!buffer.is_empty());
    assert_eq!(buffer[buffer.len() - 1], TERMINATOR);
    String::from_utf16(&buffer[..buffer.len() - 1]).unwrap()
}

#[test]
fn empty_text_is_terminator_alone() {
    assert_eq!(to_wide_chars(""), vec![0u16]);
}

#[test]
fn ascii_text_is_its_bytes_and_terminator() {
    assert_eq!(to_wide_chars("abc"), vec![97u16, 98, 99, 0]);
    assert_eq!(
        to_wide_chars("./vgrl.dll"),
        vec![46u16, 47, 118, 103, 114, 108, 46, 100, 108, 108, 0]
    );
}

#[test]
fn two_byte_and_three_byte_characters_take_one_unit() {
    assert_eq!(to_wide_chars("\u{e9}"), vec![0x00e9u16, 0]);
    assert_eq!(to_wide_chars("\u{20ac}"), vec![0x20acu16, 0]);
    assert_eq!(to_wide_chars("\u{d7ff}"), vec![0xd7ffu16, 0]);
    assert_eq!(to_wide_chars("\u{e000}"), vec![0xe000u16, 0]);
    assert_eq!(to_wide_chars("\u{ffff}"), vec![0xffffu16, 0]);
}

#[test]
fn characters_above_sixteen_bits_take_a_surrogate_pair() {
    assert_eq!(to_wide_chars("\u{10000}"), vec![0xd800u16, 0xdc00, 0]);
    assert_eq!(to_wide_chars("\u{1f600}"), vec![0xd83du16, 0xde00, 0]);
    assert_eq!(to_wide_chars("\u{10ffff}"), vec![0xdbffu16, 0xdfff, 0]);
    assert_eq!(
        to_wide_chars("a\u{1f600}b"),
        vec![97u16, 0xd83d, 0xde00, 98, 0]
    );
}

#[test]
fn push_wide_char_appends_and_keeps_what_was_there() {
    let mut buffer: Vec<u16> = vec![7, 8];
    push_wide_char(&mut buffer, 'A');
    assert_eq!(buffer, vec![7u16, 8, 65]);
    push_wide_char(&mut buffer, '\u{1f600}');
    assert_eq!(buffer, vec![7u16, 8, 65, 0xd83d, 0xde00]);
    push_wide_char(&mut buffer, '\0');
    assert_eq!(buffer, vec![7u16, 8, 65, 0xd83d, 0xde00, 0]);
}

#[test]
fn marshalling_agrees_with_the_standard_encoder() {
    let samples = [
        "",
        "C:\\app\\target.exe",
        "--flag",
        "C:\\app",
        "na\u{ef}ve caf\u{e9}",
        "\u{65e5}\u{672c}\u{8a9e}",
        "\u{1f600}\u{1f680} mixed \u{10348} text",
        "with\0nul",
    ];
    for s in samples {
        assert_eq!(to_wide_chars(s), std_wide(s));
    }
}

#[test]
fn marshalling_round_trips() {
    let samples = [
        "",
        "x",
        "C:\\Program Files\\App\\app.exe",
        "\u{7ff}\u{800}\u{ffff}\u{10000}\u{10ffff}",
        "\u{1f600}",
    ];
    for s in samples {
        let buffer = to_wide_chars(s);
        assert_eq!(decoded(&buffer), s);
    }
}

#[test]
fn every_scalar_round_trips() {
    let mut scalar: u32 = 0;
    while scalar <= 0x10ffff {
        if let Some(c) = char::from_u32(scalar) {
            let mut text = String::new();
            text.push(c);
            let buffer = to_wide_chars(&text);
            assert_eq!(buffer.len(), c.len_utf16() + 1);
            assert_eq!(decoded(&buffer), text);
        }
        scalar += 1;
    }
}

#[test]
fn terminator_is_single_and_last() {
    let buffer = to_wide_chars("hello");
    assert_eq!(buffer.len(), 6);
    assert_eq!(buffer[5], 0);
    assert!(buffer[..5].iter().all(|u| *u != 0));
}

#[test]
fn each_call_gives_a_buffer_of_its_own() {
    let mut first = to_wide_chars("same");
    let second = to_wide_chars("same");
    assert_eq!(first, second);
    first[0] = 0;
    assert_eq!(second, vec![115u16, 97, 109, 101, 0]);
}
