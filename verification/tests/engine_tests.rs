use agent_sdk::message_parser::parse_message;
use agent_sdk::query::{
    control_request_line, error_response_line, initialize_payload, interrupt_payload,
    permission_response_line, set_model_payload, set_permission_mode_payload, user_message_line,
    Query, ReaderAction, ReplyOutcome,
};
use agent_sdk::types::{Message, PermissionResult};

fn val(text: &str) -> serde_json::Value {
    serde_json::from_str(text).expect("test JSON must parse")
}

#[test]
fn test_allocate_two_distinct_ids() {
    // Two control requests on a fresh engine get distinct ids req_1, req_2,
    // and both resolve independently of each other's timing.
    let mut q = Query::new(true);
    let id1 = q.allocate_request();
    let id2 = q.allocate_request();
    assert_eq!(id1, "req_1");
    assert_eq!(id2, "req_2");
    assert_ne!(id1, id2);

    // Resolve the second first; the first still resolves on its own.
    let resp2 = val(r#"{"type":"control_response","response":{"subtype":"success","request_id":"req_2","response":{}}}"#);
    match q.handle_line(&resp2) {
        ReaderAction::Deliver { request_id, .. } => assert_eq!(request_id, "req_2"),
        _ => panic!("Expected delivery for req_2"),
    }
    let resp1 = val(r#"{"type":"control_response","response":{"subtype":"success","request_id":"req_1","response":{}}}"#);
    match q.handle_line(&resp1) {
        ReaderAction::Deliver { request_id, .. } => assert_eq!(request_id, "req_1"),
        _ => panic!("Expected delivery for req_1"),
    }
}

#[test]
fn test_engine_scenario_response_then_messages() {
    // A success response for req_1, then an assistant message, then a
    // result message: the pending request resolves and the stream yields
    // exactly the two messages, in order.
    let mut q = Query::new(true);
    let id = q.allocate_request();
    assert_eq!(id, "req_1");

    let resp = val(r#"{"type":"control_response","response":{"subtype":"success","request_id":"req_1","response":{}}}"#);
    match q.handle_line(&resp) {
        ReaderAction::Deliver { request_id, outcome } => {
            assert_eq!(request_id, "req_1");
            match outcome {
                ReplyOutcome::Success(payload) => {
                    assert!(payload.as_object().unwrap().is_empty());
                }
                _ => panic!("Expected success outcome"),
            }
        }
        _ => panic!("Expected delivery"),
    }

    let assistant = val(
        r#"{"type":"assistant","message":{"model":"m1","content":[{"type":"text","text":"hi"}]}}"#,
    );
    match q.handle_line(&assistant) {
        ReaderAction::Emit(Message::Assistant(_)) => {}
        _ => panic!("Expected assistant message"),
    }

    let result = val(
        r#"{"type":"result","subtype":"done","duration_ms":1,"duration_api_ms":1,"is_error":false,"num_turns":1,"session_id":"s"}"#,
    );
    match q.handle_line(&result) {
        ReaderAction::Emit(Message::Result(_)) => {}
        _ => panic!("Expected result message"),
    }
}

#[test]
fn test_unmatched_response_dropped() {
    // A control response with an unknown id affects neither the stream nor
    // other pending requests.
    let mut q = Query::new(true);
    let id = q.allocate_request();

    let resp = val(r#"{"type":"control_response","response":{"subtype":"success","request_id":"req_99","response":{}}}"#);
    assert!(matches!(q.handle_line(&resp), ReaderAction::DropResponse));

    // The real pending request still resolves.
    let good = val(r#"{"type":"control_response","response":{"subtype":"error","request_id":"req_1","error":"boom"}}"#);
    match q.handle_line(&good) {
        ReaderAction::Deliver { request_id, outcome } => {
            assert_eq!(request_id, id);
            match outcome {
                ReplyOutcome::Failure(text) => assert_eq!(text, "boom"),
                _ => panic!("Expected failure outcome"),
            }
        }
        _ => panic!("Expected delivery"),
    }
}

#[test]
fn test_duplicate_response_dropped() {
    // A second response for an already-fulfilled request is dropped.
    let mut q = Query::new(true);
    q.allocate_request();
    let resp = val(r#"{"type":"control_response","response":{"subtype":"success","request_id":"req_1","response":{}}}"#);
    assert!(matches!(q.handle_line(&resp), ReaderAction::Deliver { .. }));
    assert!(matches!(q.handle_line(&resp), ReaderAction::DropResponse));
}

#[test]
fn test_expire_then_late_response_dropped() {
    // Exactly one of fulfilment and timeout: after a timeout the caller
    // got its error, and the late response is dropped, never delivered.
    let mut q = Query::new(true);
    q.allocate_request();
    assert!(q.expire("req_1"));
    // A second timeout reports nothing.
    assert!(!q.expire("req_1"));
    let resp = val(r#"{"type":"control_response","response":{"subtype":"success","request_id":"req_1","response":{}}}"#);
    assert!(matches!(q.handle_line(&resp), ReaderAction::DropResponse));
}

#[test]
fn test_fulfilled_then_expire_reports_nothing() {
    // The other order: once fulfilled, the timer firing delivers nothing.
    let mut q = Query::new(true);
    q.allocate_request();
    let resp = val(r#"{"type":"control_response","response":{"subtype":"success","request_id":"req_1","response":{}}}"#);
    assert!(matches!(q.handle_line(&resp), ReaderAction::Deliver { .. }));
    assert!(!q.expire("req_1"));
}

#[test]
fn test_malformed_control_not_fatal() {
    // Malformed control envelopes are skipped; the stream then still
    // yields later plain messages, and a malformed plain message is the
    // fatal final item.
    let mut q = Query::new(true);

    let missing_id = val(r#"{"type":"control_response","response":{"subtype":"success"}}"#);
    assert!(matches!(q.handle_line(&missing_id), ReaderAction::DropResponse));

    let unknown_subtype =
        val(r#"{"type":"control_response","response":{"subtype":"weird","request_id":"req_1"}}"#);
    assert!(matches!(q.handle_line(&unknown_subtype), ReaderAction::DropResponse));

    let req_missing_id = val(r#"{"type":"control_request","request":{"subtype":"can_use_tool"}}"#);
    assert!(matches!(q.handle_line(&req_missing_id), ReaderAction::IgnoreControl));

    let plain = val(
        r#"{"type":"assistant","message":{"model":"m","content":[{"type":"text","text":"ok"}]}}"#,
    );
    assert!(matches!(q.handle_line(&plain), ReaderAction::Emit(_)));

    let bad_plain = val(r#"{"type":"assistant","message":{}}"#);
    assert!(matches!(q.handle_line(&bad_plain), ReaderAction::Fatal(_)));
}

#[test]
fn test_can_use_tool_dispatch() {
    // With a permission callback registered, a permission check becomes a
    // dispatch under the same correlation id, and unrelated plain messages
    // arriving afterwards still flow: the reader never waits on the
    // callback.
    let mut q = Query::with_can_use_tool(true);
    let req = val(
        r#"{"type":"control_request","request_id":"srv_1","request":{"subtype":"can_use_tool","tool_name":"Bash","input":{"command":"ls"}}}"#,
    );
    match q.handle_line(&req) {
        ReaderAction::Dispatch { request_id, tool_name, input } => {
            assert_eq!(request_id, "srv_1");
            assert_eq!(tool_name, "Bash");
            assert_eq!(input.get("command").unwrap().as_str(), Some("ls"));
        }
        _ => panic!("Expected dispatch"),
    }

    // While that dispatch is outstanding, plain messages keep flowing.
    let plain = val(
        r#"{"type":"assistant","message":{"model":"m","content":[{"type":"text","text":"later"}]}}"#,
    );
    assert!(matches!(q.handle_line(&plain), ReaderAction::Emit(_)));
}

#[test]
fn test_can_use_tool_ignored_without_callback() {
    let mut q = Query::new(true);
    let req = val(
        r#"{"type":"control_request","request_id":"srv_1","request":{"subtype":"can_use_tool","tool_name":"Bash","input":{}}}"#,
    );
    assert!(matches!(q.handle_line(&req), ReaderAction::IgnoreControl));
}

#[test]
fn test_other_control_subtypes_ignored() {
    let mut q = Query::with_can_use_tool(true);
    let req = val(
        r#"{"type":"control_request","request_id":"srv_2","request":{"subtype":"mcp_message","server_name":"s","message":{}}}"#,
    );
    assert!(matches!(q.handle_line(&req), ReaderAction::IgnoreControl));
}

#[test]
fn test_control_request_line_shape() {
    let line = control_request_line("req_1", interrupt_payload());
    let v = val(&line);
    assert_eq!(v.get("type").unwrap().as_str(), Some("control_request"));
    assert_eq!(v.get("request_id").unwrap().as_str(), Some("req_1"));
    assert_eq!(
        v.get("request").unwrap().get("subtype").unwrap().as_str(),
        Some("interrupt")
    );
}

#[test]
fn test_set_permission_mode_payload_shape() {
    let line = control_request_line("req_2", set_permission_mode_payload("acceptEdits"));
    let v = val(&line);
    let req = v.get("request").unwrap();
    assert_eq!(req.get("subtype").unwrap().as_str(), Some("set_permission_mode"));
    assert_eq!(req.get("mode").unwrap().as_str(), Some("acceptEdits"));
}

#[test]
fn test_set_model_payload_shape() {
    let with_model = set_model_payload(Some("sonnet-4-5"));
    assert_eq!(with_model.get("model").unwrap().as_str(), Some("sonnet-4-5"));
    let without = set_model_payload(None);
    assert!(without.get("model").unwrap().is_null());
    assert_eq!(without.get("subtype").unwrap().as_str(), Some("set_model"));
}

#[test]
fn test_initialize_payload_shape() {
    let hooks: serde_json::Value = serde_json::from_str(r#"{"PreToolUse": []}"#).unwrap();
    let with_hooks = initialize_payload(Some(hooks));
    assert_eq!(with_hooks.get("subtype").unwrap().as_str(), Some("initialize"));
    assert!(with_hooks.get("hooks").unwrap().get("PreToolUse").is_some());
    let without = initialize_payload(None);
    assert!(without.get("hooks").unwrap().is_null());
}

#[test]
fn test_user_message_line_shape() {
    let line = user_message_line("What is 2 + 2?", "default");
    let v = val(&line);
    assert_eq!(v.get("type").unwrap().as_str(), Some("user"));
    assert_eq!(v.get("session_id").unwrap().as_str(), Some("default"));
    assert!(v.get("parent_tool_use_id").unwrap().is_null());
    let message = v.get("message").unwrap();
    assert_eq!(message.get("role").unwrap().as_str(), Some("user"));
    assert_eq!(message.get("content").unwrap().as_str(), Some("What is 2 + 2?"));
}

#[test]
fn test_user_message_line_escapes_prompt() {
    // Prompt text with quotes and newlines must round-trip unchanged.
    let prompt = "say \"hi\"\nthen stop";
    let line = user_message_line(prompt, "s1");
    let v = val(&line);
    assert_eq!(
        v.get("message").unwrap().get("content").unwrap().as_str(),
        Some(prompt)
    );
}

#[test]
fn test_permission_response_allow() {
    let line = permission_response_line("srv_1", &PermissionResult::allow());
    let v = val(&line);
    assert_eq!(v.get("type").unwrap().as_str(), Some("control_response"));
    let resp = v.get("response").unwrap();
    assert_eq!(resp.get("subtype").unwrap().as_str(), Some("success"));
    assert_eq!(resp.get("request_id").unwrap().as_str(), Some("srv_1"));
    let data = resp.get("response").unwrap();
    assert_eq!(data.get("allow").unwrap().as_bool(), Some(true));
    assert!(data.get("input").is_none());
}

#[test]
fn test_permission_response_allow_with_input() {
    let patched: serde_json::Value = serde_json::from_str(r#""echo safe""#).unwrap();
    let result = PermissionResult::allow_with_input(vec![("command".to_string(), patched)]);
    let line = permission_response_line("srv_2", &result);
    let v = val(&line);
    let data = v.get("response").unwrap().get("response").unwrap();
    assert_eq!(data.get("allow").unwrap().as_bool(), Some(true));
    assert_eq!(
        data.get("input").unwrap().get("command").unwrap().as_str(),
        Some("echo safe")
    );
}

#[test]
fn test_permission_response_deny() {
    let line =
        permission_response_line("srv_3", &PermissionResult::deny("not allowed".to_string()));
    let v = val(&line);
    let data = v.get("response").unwrap().get("response").unwrap();
    assert_eq!(data.get("allow").unwrap().as_bool(), Some(false));
    assert_eq!(data.get("reason").unwrap().as_str(), Some("not allowed"));
}

#[test]
fn test_error_response_line_shape() {
    let line = error_response_line("srv_4", "callback failed");
    let v = val(&line);
    let resp = v.get("response").unwrap();
    assert_eq!(resp.get("subtype").unwrap().as_str(), Some("error"));
    assert_eq!(resp.get("request_id").unwrap().as_str(), Some("srv_4"));
    assert_eq!(resp.get("error").unwrap().as_str(), Some("callback failed"));
}

#[test]
fn test_plain_messages_unaltered() {
    // A parsed emission carries the line's content unaltered.
    let mut q = Query::new(true);
    let plain = val(
        r#"{"type":"assistant","message":{"model":"m9","content":[{"type":"text","text":"exact words"}]}}"#,
    );
    match q.handle_line(&plain) {
        ReaderAction::Emit(m) => {
            let direct = parse_message(&plain).unwrap();
            match (m, direct) {
                (Message::Assistant(a), Message::Assistant(b)) => {
                    assert_eq!(a.model, b.model);
                    assert_eq!(a.content.len(), b.content.len());
                }
                _ => panic!("Expected assistant messages"),
            }
        }
        _ => panic!("Expected emission"),
    }
}
