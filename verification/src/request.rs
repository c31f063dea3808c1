//! What is to be launched, and the arguments that the entry point is
//! called with for it.

use vstd::prelude::*;
use crate::wide::{to_wide_chars, wide_text};

verus! {

/// Creation flag that asks for a detached process: the child gets no
/// console and does not inherit the launcher's.
pub const DETACHED_PROCESS: u32 = 0x0000_0008;

/// What to launch: the executable, an optional argument string and an
/// optional working directory.
#[derive(Debug, PartialEq, Eq)]
pub struct LaunchRequest {
    pub executable_path: String,
    pub argument_string: Option<String>,
    pub working_directory: Option<String>,
}

/// The marshalled form of an optional text: no buffer where there is no
/// text, which the entry point receives as a null pointer.
pub open spec fn wide_optional(text: Option<String>) -> Option<Seq<u16>> {
    match text {
        Some(t) => Some(wide_text(t@)),
        None => None,
    }
}

impl LaunchRequest {
    /// A request names an executable: its path is not empty.
    pub open spec fn wf(&self) -> bool {
        self.executable_path@.len() > 0
    }

    /// Makes a request, or `None` where the executable path is empty.
    pub fn new(
        executable_path: String,
        argument_string: Option<String>,
        working_directory: Option<String>,
    ) -> (request: Option<LaunchRequest>)
        ensures
            request is Some <==> executable_path@.len() > 0,
            request matches Some(r) ==> r.wf() && r.executable_path == executable_path
                && r.argument_string == argument_string && r.working_directory
                == working_directory,
    {
        if executable_path.as_str().is_empty() {
            None
        } else {
            Some(LaunchRequest { executable_path, argument_string, working_directory })
        }
    }
}

/// The arguments of one call of the entry point, in the order of its
/// signature. A `None` stands for a null pointer. The two output
/// structures that end the signature are not part of it: whoever makes
/// the call hands over zeroed ones.
#[derive(Debug, PartialEq, Eq)]
pub struct ProcessCall {
    pub application_name: Vec<u16>,
    pub command_line: Option<Vec<u16>>,
    pub process_attributes: Option<usize>,
    pub thread_attributes: Option<usize>,
    pub inherit_handles: bool,
    pub creation_flags: u32,
    pub environment: Option<usize>,
    pub current_directory: Option<Vec<u16>>,
}

/// The arguments of a call as plain values.
pub struct ProcessCallView {
    pub application_name: Seq<u16>,
    pub command_line: Option<Seq<u16>>,
    pub process_attributes: Option<usize>,
    pub thread_attributes: Option<usize>,
    pub inherit_handles: bool,
    pub creation_flags: u32,
    pub environment: Option<usize>,
    pub current_directory: Option<Seq<u16>>,
}

/// The buffer's contents, where there is a buffer.
pub open spec fn view_optional(buffer: Option<Vec<u16>>) -> Option<Seq<u16>> {
    match buffer {
        Some(b) => Some(b@),
        None => None,
    }
}

impl View for ProcessCall {
    type V = ProcessCallView;

    open spec fn view(&self) -> ProcessCallView {
        ProcessCallView {
            application_name: self.application_name@,
            command_line: view_optional(self.command_line),
            process_attributes: self.process_attributes,
            thread_attributes: self.thread_attributes,
            inherit_handles: self.inherit_handles,
            creation_flags: self.creation_flags,
            environment: self.environment,
            current_directory: view_optional(self.current_directory),
        }
    }
}

/// The call that a request asks for: the executable path and each
/// optional text that is present marshalled, a null pointer for each
/// that is absent, no security attributes, no inherited handles, a
/// detached process, and the launcher's own environment.
pub open spec fn call_for(request: LaunchRequest) -> ProcessCallView {
    ProcessCallView {
        application_name: wide_text(request.executable_path@),
        command_line: wide_optional(request.argument_string),
        process_attributes: None,
        thread_attributes: None,
        inherit_handles: false,
        creation_flags: DETACHED_PROCESS,
        environment: None,
        current_directory: wide_optional(request.working_directory),
    }
}

/// Marshals an optional text: a buffer of its own where there is a text,
/// none where there is not.
pub fn to_wide_optional(text: &Option<String>) -> (buffer: Option<Vec<u16>>)
    ensures
        view_optional(buffer) == wide_optional(*text),
        buffer is None <==> *text is None,
{
    match text {
        Some(t) => Some(to_wide_chars(t.as_str())),
        None => None,
    }
}

impl ProcessCall {
    /// Builds the call for a request. Every buffer in it is owned by the
    /// call, so each pointer taken from it is good for as long as the call
    /// value lives.
    pub fn for_request(request: &LaunchRequest) -> (call: ProcessCall)
        requires
            request.wf(),
        ensures
            call@ == call_for(*request),
            call.command_line is None <==> request.argument_string is None,
            call.current_directory is None <==> request.working_directory is None,
            call.application_name@.len() >= 2,
    {
        let application_name = to_wide_chars(request.executable_path.as_str());
        proof {
            lemma_wide_text_longer(request.executable_path@);
        }
        ProcessCall {
            application_name,
            command_line: to_wide_optional(&request.argument_string),
            process_attributes: None,
            thread_attributes: None,
            inherit_handles: false,
            creation_flags: DETACHED_PROCESS,
            environment: None,
            current_directory: to_wide_optional(&request.working_directory),
        }
    }
}

/// The buffer of a text that is not empty holds more than its terminator.
pub proof fn lemma_wide_text_longer(text: Seq<char>)
    requires
        text.len() > 0,
    ensures
        wide_text(text).len() >= 2,
{
    crate::wide::lemma_encode_char_shape(text[0]);
}

/// A request without argument string and working directory is called
/// with a null pointer for each of the two, whatever its executable is.
pub proof fn lemma_absent_texts_are_null(request: LaunchRequest)
    requires
        request.argument_string is None,
        request.working_directory is None,
    ensures
        call_for(request).command_line is None,
        call_for(request).current_directory is None,
{
}

/// A text that is present is never called with a null pointer, not even
/// an empty one: its buffer holds at least the terminator.
pub proof fn lemma_present_text_has_buffer(text: String)
    ensures
        wide_optional(Some(text)) is Some,
        wide_optional(Some(text))->0.len() >= 1,
{
}

} // verus!
