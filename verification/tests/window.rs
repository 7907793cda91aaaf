use leto::microphone::{input_sample_type, InputSampleType, SampleFormatKind};
use leto::rpc::{rpc_settings, rpc_start_error, RpcStartFailure};
use leto::text::{starts_with, str_eq};
use leto::window::{
    fetch_log_script, fetch_response_script, fetch_result_scripts, loop_action, menu_action,
    method_of_uppercase, request_method, string_headers, HttpMethod, LoopAction, LoopEvent, MenuAction,
    CONTENT_SECURITY_POLICY, USER_AGENT,
};

#[test]
fn menu_actions() {
    assert_eq!(menu_action("7", Some("7"), Some("8")), MenuAction::Reload);
    assert_eq!(menu_action("8", Some("7"), Some("8")), MenuAction::OpenDevtools);
    assert_eq!(menu_action("9", Some("7"), Some("8")), MenuAction::Ignore);
    assert_eq!(menu_action("7", None, None), MenuAction::Ignore);
    assert_eq!(menu_action("8", None, Some("8")), MenuAction::OpenDevtools);
}

#[test]
fn reload_is_checked_first() {
    assert_eq!(menu_action("1", Some("1"), Some("1")), MenuAction::Reload);
}

#[test]
fn fetch_scripts_exact_text() {
    assert_eq!(
        fetch_response_script("r1", true, "{\"status\":200}"),
        "window.__LETO__.handleFetchResponse('r1', true, {\"status\":200});"
    );
    assert_eq!(
        fetch_response_script("r2", false, "{\"error\":\"boom\"}"),
        "window.__LETO__.handleFetchResponse('r2', false, {\"error\":\"boom\"});"
    );
    assert_eq!(
        fetch_log_script("r1"),
        "window.__LETO__.logMessage('Fetch response for r1 being returned.');"
    );
}

#[test]
fn fetch_result_scripts_log_first() {
    let scripts = fetch_result_scripts("abc", true, "null");
    assert_eq!(scripts.len(), 2);
    assert_eq!(scripts[0], fetch_log_script("abc"));
    assert_eq!(scripts[1], "window.__LETO__.handleFetchResponse('abc', true, null);");
}

#[test]
fn methods_ignore_case() {
    assert_eq!(request_method("post"), HttpMethod::Post);
    assert_eq!(request_method("Put"), HttpMethod::Put);
    assert_eq!(request_method("delete"), HttpMethod::Delete);
    assert_eq!(request_method("GET"), HttpMethod::Get);
    assert_eq!(request_method("patch"), HttpMethod::Get);
    assert_eq!(request_method(""), HttpMethod::Get);
    assert_eq!(request_method("poſt"), HttpMethod::Post);
}

#[test]
fn uppercase_names_select_methods() {
    assert_eq!(method_of_uppercase("POST"), HttpMethod::Post);
    assert_eq!(method_of_uppercase("PUT"), HttpMethod::Put);
    assert_eq!(method_of_uppercase("DELETE"), HttpMethod::Delete);
    assert_eq!(method_of_uppercase("post"), HttpMethod::Get);
    assert_eq!(method_of_uppercase("HEAD"), HttpMethod::Get);
}

#[test]
fn only_string_headers_are_sent() {
    let headers = string_headers(vec![
        ("Accept".to_string(), Some("text/plain".to_string())),
        ("X-Count".to_string(), None),
        ("Authorization".to_string(), Some("SECRET-REDACTED".to_string())),
        ("X-Flag".to_string(), None),
    ]);
    assert_eq!(
        headers,
        vec![
            ("Accept".to_string(), "text/plain".to_string()),
            ("Authorization".to_string(), "SECRET-REDACTED".to_string()),
        ]
    );
    assert!(string_headers(Vec::new()).is_empty());
}

#[test]
fn web_view_settings() {
    assert!(USER_AGENT.starts_with("Mozilla/5.0 (Macintosh;"));
    assert!(CONTENT_SECURITY_POLICY.starts_with("default-src * 'unsafe-inline' 'unsafe-eval'"));
    assert!(CONTENT_SECURITY_POLICY.ends_with("frame-src * data: blob:;"));
}

#[test]
fn supported_input_formats() {
    assert_eq!(input_sample_type(SampleFormatKind::F32), Some(InputSampleType::F32));
    assert_eq!(input_sample_type(SampleFormatKind::I16), Some(InputSampleType::I16));
    assert_eq!(input_sample_type(SampleFormatKind::U16), Some(InputSampleType::U16));
    for other in [
        SampleFormatKind::I8,
        SampleFormatKind::I24,
        SampleFormatKind::I32,
        SampleFormatKind::I64,
        SampleFormatKind::U8,
        SampleFormatKind::U24,
        SampleFormatKind::U32,
        SampleFormatKind::U64,
        SampleFormatKind::F64,
        SampleFormatKind::Other,
    ] {
        assert_eq!(input_sample_type(other), None);
    }
}

#[test]
fn rpc_start_errors() {
    assert_eq!(rpc_start_error(RpcStartFailure::FetchDetectables, "x"), "Failed to fetch detectables");
    assert_eq!(rpc_start_error(RpcStartFailure::ReadDetectables, "x"), "Failed to read detectables");
    assert_eq!(
        rpc_start_error(RpcStartFailure::StartServer, "BadJson"),
        "Failed to start RPC server: BadJson"
    );
    let settings = rpc_settings();
    assert!(settings.enable_process_scanner);
    assert!(settings.enable_ipc_connector);
    assert!(settings.enable_websocket_connector);
    assert!(settings.enable_secondary_events);
}

#[test]
fn text_helpers() {
    assert!(str_eq("abc", "abc"));
    assert!(!str_eq("abc", "abd"));
    assert!(!str_eq("abc", "ab"));
    assert!(str_eq("", ""));
    assert!(starts_with("héllo", "hé"));
    assert!(!starts_with("hé", "héllo"));
    assert!(starts_with("x", ""));
}

#[test]
fn event_loop_actions() {
    assert_eq!(loop_action(LoopEvent::CloseRequested), LoopAction::Exit);
    assert_eq!(loop_action(LoopEvent::UserEvent), LoopAction::HandleUserEvent);
    assert_eq!(loop_action(LoopEvent::OtherWindowEvent), LoopAction::Wait);
    assert_eq!(loop_action(LoopEvent::Other), LoopAction::Wait);
}
