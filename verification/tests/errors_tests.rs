use agent_sdk::errors::ClaudeSDKError;

#[test]
fn test_cli_connection_error() {
    let error = ClaudeSDKError::cli_connection_error("Connection failed".to_string());
    assert!(error.message().contains("Connection failed"));
}

#[test]
fn test_cli_not_found_without_path() {
    let error = ClaudeSDKError::cli_not_found(None);
    let msg = error.message();
    assert!(msg.contains("CLI executable not found"));
}

#[test]
fn test_cli_not_found_with_path() {
    let error = ClaudeSDKError::cli_not_found(Some("/usr/local/bin/agent-cli".to_string()));
    let msg = error.message();
    assert!(msg.contains("CLI executable not found"));
    assert!(msg.contains("/usr/local/bin/agent-cli"));
}

#[test]
fn test_process_error_minimal() {
    let error = ClaudeSDKError::process_error("Process failed".to_string(), None, None);
    let msg = error.message();
    assert!(msg.contains("Process failed"));
}

#[test]
fn test_process_error_with_exit_code() {
    let error = ClaudeSDKError::process_error("Process failed".to_string(), Some(1), None);
    let msg = error.message();
    assert!(msg.contains("Process failed"));
    assert!(msg.contains("exit code: 1"));
}

#[test]
fn test_process_error_with_stderr() {
    let error = ClaudeSDKError::process_error(
        "Process failed".to_string(),
        Some(1),
        Some("Error details".to_string()),
    );
    let msg = error.message();
    assert!(msg.contains("Process failed"));
    assert!(msg.contains("exit code: 1"));
    assert!(msg.contains("Error output: Error details"));
}

#[test]
fn test_json_decode_error() {
    let error = ClaudeSDKError::json_decode_error(
        "{invalid json}".to_string(),
        "expected value at line 1 column 2".to_string(),
    );
    let msg = error.message();
    assert!(msg.contains("Failed to decode JSON"));
    assert!(msg.contains("{invalid json}"));
}

#[test]
fn test_json_decode_error_truncates_long_lines() {
    let long_line = "a".repeat(200);
    let error = ClaudeSDKError::json_decode_error(long_line.clone(), "parse error".to_string());
    let msg = error.message();
    assert!(msg.contains("..."));
    assert!(msg.len() < long_line.len() + 100);
}

#[test]
fn test_message_parse_error_without_data() {
    let error = ClaudeSDKError::message_parse_error("Invalid message format".to_string(), None);
    let msg = error.message();
    assert!(msg.contains("Invalid message format"));
}

#[test]
fn test_message_parse_error_with_data() {
    let data: serde_json::Value =
        serde_json::from_str(r#"{"type": "unknown", "field": "value"}"#).unwrap();
    let error = ClaudeSDKError::message_parse_error("Unknown message type".to_string(), Some(data));
    let msg = error.message();
    assert!(msg.contains("Unknown message type"));
}

#[test]
fn test_result_type() {
    fn returns_result() -> Result<String, ClaudeSDKError> {
        Ok("success".to_string())
    }

    fn returns_error() -> Result<String, ClaudeSDKError> {
        Err(ClaudeSDKError::cli_connection_error("failed".to_string()))
    }

    assert!(returns_result().is_ok());
    assert!(returns_error().is_err());
}

#[test]
fn test_error_chain() {
    fn inner_function() -> Result<(), ClaudeSDKError> {
        Err(ClaudeSDKError::process_error("inner error".to_string(), None, None))
    }

    fn outer_function() -> Result<String, ClaudeSDKError> {
        inner_function()?;
        Ok("success".to_string())
    }

    let result = outer_function();
    assert!(result.is_err());
    if let Err(e) = result {
        assert!(e.message().contains("inner error"));
    }
}

#[test]
fn test_exact_connection_message() {
    let error = ClaudeSDKError::cli_connection_error("timeout".to_string());
    assert_eq!(error.message(), "CLI Connection Error: timeout");
}

#[test]
fn test_exact_process_message() {
    let error =
        ClaudeSDKError::process_error("Process failed".to_string(), Some(-3), Some("bad".to_string()));
    assert_eq!(error.message(), "Process failed (exit code: -3)\nError output: bad");
}
