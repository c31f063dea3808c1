use vgrl_launcher::request::{to_wide_optional, LaunchRequest, ProcessCall, DETACHED_PROCESS};
use vgrl_launcher::wide::to_wide_chars;

fn request(executable: &str, argument: Option<&str>, directory: Option<&str>) -> LaunchRequest {
    LaunchRequest::new(
        executable.to_string(),
        argument.map(|a| a.to_string()),
        directory.map(|d| d.to_string()),
    )
    .unwrap()
}

#[test]
fn request_keeps_its_fields() {
    let r = request("C:\\app\\target.exe", Some("--flag"), Some("C:\\app"));
    assert_eq!(r.executable_path, "C:\\app\\target.exe");
    assert_eq!(r.argument_string, Some("--flag".to_string()));
    assert_eq!(r.working_directory, Some("C:\\app".to_string()));
}

#[test]
fn empty_executable_path_is_no_request() {
    assert_eq!(LaunchRequest::new(String::new(), None, None), None);
    assert_eq!(
        LaunchRequest::new(String::new(), Some("--flag".to_string()), Some("C:\\".to_string())),
        None
    );
}

#[test]
fn detached_process_flag_value() {
    assert_eq!(DETACHED_PROCESS, 0x8);
}

#[test]
fn absent_texts_become_null() {
    let call = ProcessCall::for_request(&request("C:\\app\\target.exe", None, None));
    assert_eq!(call.command_line, None);
    assert_eq!(call.current_directory, None);
    assert_eq!(call.application_name, to_wide_chars("C:\\app\\target.exe"));
}

#[test]
fn present_texts_are_marshalled() {
    let call = ProcessCall::for_request(&request(
        "C:\\app\\target.exe",
        Some("--flag"),
        Some("C:\\app"),
    ));
    assert_eq!(
        call.command_line,
        Some(vec![45u16, 45, 102, 108, 97, 103, 0])
    );
    assert_eq!(
        call.current_directory,
        Some(vec![67u16, 58, 92, 97, 112, 112, 0])
    );
}

#[test]
fn empty_but_present_text_is_a_buffer_not_null() {
    let call = ProcessCall::for_request(&request("a.exe", Some(""), Some("")));
    assert_eq!(call.command_line, Some(vec![0u16]));
    assert_eq!(call.current_directory, Some(vec![0u16]));
}

#[test]
fn only_one_optional_text() {
    let call = ProcessCall::for_request(&request("a.exe", Some("x"), None));
    assert_eq!(call.command_line, Some(vec![120u16, 0]));
    assert_eq!(call.current_directory, None);
    let call = ProcessCall::for_request(&request("a.exe", None, Some("d")));
    assert_eq!(call.command_line, None);
    assert_eq!(call.current_directory, Some(vec![100u16, 0]));
}

#[test]
fn fixed_arguments_of_the_call() {
    let call = ProcessCall::for_request(&request("a.exe", Some("x"), Some("d")));
    assert_eq!(call.application_name, vec![97u16, 46, 101, 120, 101, 0]);
    assert_eq!(call.process_attributes, None);
    assert_eq!(call.thread_attributes, None);
    assert!(!call.inherit_handles);
    assert_eq!(call.creation_flags, 8);
    assert_eq!(call.environment, None);
}

#[test]
fn to_wide_optional_maps_presence() {
    assert_eq!(to_wide_optional(&None), None);
    assert_eq!(
        to_wide_optional(&Some("ab".to_string())),
        Some(vec![97u16, 98, 0])
    );
    assert_eq!(to_wide_optional(&Some(String::new())), Some(vec![0u16]));
}
