use agent_sdk::errors::ClaudeSDKError;
use agent_sdk::strutil::{i64_to_dec, trim_ws, truncate_chars, u64_to_dec};
use agent_sdk::transport::{frame_line, mode_flag, SubprocessTransport};
use agent_sdk::types::{ClaudeAgentOptions, PermissionMode, SystemPromptConfig};

fn transport_with(prompt: &str, options: ClaudeAgentOptions) -> SubprocessTransport {
    SubprocessTransport::new(prompt.to_string(), options, "agent-cli".to_string())
}

#[test]
fn test_build_command_minimal() {
    let t = transport_with("", ClaudeAgentOptions::default());
    let cmd = t.build_command();
    assert_eq!(
        cmd,
        vec![
            "--output-format".to_string(),
            "stream-json".to_string(),
            "--verbose".to_string()
        ]
    );
}

#[test]
fn test_build_command_full() {
    let mut options = ClaudeAgentOptions::default();
    options.system_prompt = Some(SystemPromptConfig::Text("be brief".to_string()));
    options.allowed_tools = vec!["Read".to_string(), "Write".to_string()];
    options.max_turns = Some(5);
    options.permission_mode = Some(PermissionMode::AcceptEdits);
    options.model = Some("sonnet-4-5".to_string());
    let t = transport_with("What is 2 + 2?", options);
    let cmd = t.build_command();
    assert_eq!(
        cmd,
        vec![
            "--output-format".to_string(),
            "stream-json".to_string(),
            "--verbose".to_string(),
            "--system-prompt".to_string(),
            "be brief".to_string(),
            "--allowedTools".to_string(),
            "Read,Write".to_string(),
            "--max-turns".to_string(),
            "5".to_string(),
            "--permission-mode".to_string(),
            "acceptEdits".to_string(),
            "--model".to_string(),
            "sonnet-4-5".to_string(),
            "--print".to_string(),
            "--".to_string(),
            "What is 2 + 2?".to_string(),
        ]
    );
}

#[test]
fn test_mode_flags() {
    assert_eq!(mode_flag(&PermissionMode::Default), "default");
    assert_eq!(mode_flag(&PermissionMode::AcceptEdits), "acceptEdits");
    assert_eq!(mode_flag(&PermissionMode::Plan), "plan");
    assert_eq!(mode_flag(&PermissionMode::BypassPermissions), "bypassPermissions");
}

#[test]
fn test_write_gate_not_ready() {
    let t = transport_with("test", ClaudeAgentOptions::default());
    let r = t.check_writable(true, None);
    match r {
        Err(ClaudeSDKError::CLIConnectionError(msg)) => {
            assert!(msg.contains("not ready for writing"));
        }
        _ => panic!("Expected connection error"),
    }
}

#[test]
fn test_write_gate_after_exit() {
    // A write after the process exited with code 1 reports a process
    // error carrying exit code 1 and sends nothing.
    let mut t = transport_with("test", ClaudeAgentOptions::default());
    t.mark_connected();
    let r = t.check_writable(true, Some(Some(1)));
    match r {
        Err(ClaudeSDKError::ProcessError { exit_code, stderr, .. }) => {
            assert_eq!(exit_code, Some(1));
            assert_eq!(stderr, None);
        }
        _ => panic!("Expected process error"),
    }
}

#[test]
fn test_write_gate_ready() {
    let mut t = transport_with("test", ClaudeAgentOptions::default());
    t.mark_connected();
    assert!(t.check_writable(true, None).is_ok());
    assert!(t.is_ready());
}

#[test]
fn test_write_gate_no_stdin() {
    let mut t = transport_with("test", ClaudeAgentOptions::default());
    t.mark_connected();
    match t.check_writable(false, None) {
        Err(ClaudeSDKError::CLIConnectionError(msg)) => {
            assert!(msg.contains("Stdin not available"));
        }
        _ => panic!("Expected connection error"),
    }
}

#[test]
fn test_write_failure_is_permanent() {
    let mut t = transport_with("test", ClaudeAgentOptions::default());
    t.mark_connected();
    t.mark_not_ready();
    assert!(!t.is_ready());
    assert!(t.check_writable(true, None).is_err());
}

#[test]
fn test_frame_line_blank() {
    assert!(frame_line("").is_none());
    assert!(frame_line("   \t  ").is_none());
    // Lines of nothing but other Unicode whitespace are blank too, as for
    // the standard trim.
    assert!(frame_line("\u{000B}\u{000C}").is_none());
    assert!(frame_line("\u{00A0}\u{2003}\u{3000}").is_none());
}

#[test]
fn test_frame_line_trims_padding() {
    // A valid JSON line padded with whitespace the decoder itself would
    // reject (form feed, no-break space) still decodes after trimming.
    let framed = frame_line("\u{000C} {\"a\": 1} \u{00A0}");
    let v = framed.expect("not blank").expect("valid JSON");
    assert_eq!(v.get("a").unwrap().as_i64(), Some(1));
}

#[test]
fn test_frame_line_decodes() {
    let framed = frame_line("{\"type\": \"system\", \"subtype\": \"ready\"}");
    let v = framed.expect("not blank").expect("valid JSON");
    assert_eq!(v.get("type").unwrap().as_str(), Some("system"));
    assert_eq!(v.get("subtype").unwrap().as_str(), Some("ready"));
}

#[test]
fn test_frame_line_decode_error() {
    // The error carries the offending line, trimmed.
    let framed = frame_line("  {not json  ");
    match framed {
        Some(Err(ClaudeSDKError::CLIJSONDecodeError { line, .. })) => {
            assert_eq!(line, "{not json");
        }
        _ => panic!("Expected decode error"),
    }
}

#[test]
fn test_decimal_rendering() {
    assert_eq!(u64_to_dec(0), "0");
    assert_eq!(u64_to_dec(7), "7");
    assert_eq!(u64_to_dec(12034), "12034");
    assert_eq!(u64_to_dec(u64::MAX), "18446744073709551615");
    assert_eq!(i64_to_dec(-45), "-45");
    assert_eq!(i64_to_dec(i64::MIN), "-9223372036854775808");
}

#[test]
fn test_trim_and_truncate_helpers() {
    assert_eq!(trim_ws("\r\n"), "");
    assert_eq!(trim_ws(" x "), "x");
    assert_eq!(trim_ws("\u{2028}abc\u{205F}\u{0085}"), "abc");
    assert_eq!(trim_ws("no padding"), "no padding");
    assert_eq!(truncate_chars("short", 100), "short");
    let long = "b".repeat(150);
    let cut = truncate_chars(&long, 100);
    assert_eq!(cut.len(), 103);
    assert!(cut.ends_with("..."));
}
