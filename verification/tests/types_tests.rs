use agent_sdk::types::{
    AgentDefinition, ClaudeAgentOptions, ContentBlock, PermissionResult, PermissionRuleValue,
    ResultMessage, UserMessage, UserMessageContent,
};

#[test]
fn permissions_test_permission_result_allow() {
    let result = PermissionResult::allow();
    match result {
        PermissionResult::Allow { updated_input, updated_permissions } => {
            assert!(updated_input.is_none());
            assert!(updated_permissions.is_none());
        }
        _ => panic!("Expected Allow variant"),
    }
}

#[test]
fn test_permission_result_allow_with_input() {
    let value: serde_json::Value = serde_json::from_str(r#""value""#).unwrap();
    let input = vec![("key".to_string(), value.clone())];

    let result = PermissionResult::allow_with_input(input);
    match result {
        PermissionResult::Allow { updated_input, .. } => {
            let pairs = updated_input.expect("Expected updated input");
            assert_eq!(pairs.len(), 1);
            assert_eq!(pairs[0].0, "key");
            assert_eq!(pairs[0].1, value);
        }
        _ => panic!("Expected Allow variant"),
    }
}

#[test]
fn permissions_test_permission_result_deny() {
    let result = PermissionResult::deny("Test denial".to_string());
    match result {
        PermissionResult::Deny { message, interrupt } => {
            assert_eq!(message, "Test denial");
            assert!(!interrupt);
        }
        _ => panic!("Expected Deny variant"),
    }
}

#[test]
fn test_permission_result_deny_with_interrupt() {
    let result = PermissionResult::deny_with_interrupt("Test interrupt".to_string());
    match result {
        PermissionResult::Deny { message, interrupt } => {
            assert_eq!(message, "Test interrupt");
            assert!(interrupt);
        }
        _ => panic!("Expected Deny variant"),
    }
}

#[test]
fn test_agent_definition_fields() {
    let agent = AgentDefinition {
        description: "Test agent".to_string(),
        prompt: "Test prompt".to_string(),
        tools: Some(vec!["tool1".to_string(), "tool2".to_string()]),
        model: Some("sonnet".to_string()),
    };

    assert_eq!(agent.description, "Test agent");
    assert_eq!(agent.prompt, "Test prompt");
    assert_eq!(agent.tools, Some(vec!["tool1".to_string(), "tool2".to_string()]));
    assert_eq!(agent.model, Some("sonnet".to_string()));
}

#[test]
fn test_permission_rule_value_fields() {
    let rule = PermissionRuleValue {
        tool_name: "Bash".to_string(),
        rule_content: Some("allow all".to_string()),
    };

    assert_eq!(rule.tool_name, "Bash");
    assert_eq!(rule.rule_content, Some("allow all".to_string()));
}

#[test]
fn test_user_message_construction() {
    let msg = UserMessage {
        content: UserMessageContent::Text("hi".to_string()),
        parent_tool_use_id: None,
    };
    assert!(matches!(msg.content, UserMessageContent::Text(ref t) if t == "hi"));

    let blocks = UserMessage {
        content: UserMessageContent::Blocks(vec![ContentBlock::Text { text: "b".to_string() }]),
        parent_tool_use_id: Some("p1".to_string()),
    };
    assert_eq!(blocks.parent_tool_use_id, Some("p1".to_string()));
}

#[test]
fn test_result_message_fields() {
    let msg = ResultMessage {
        subtype: "final".to_string(),
        duration_ms: 100,
        duration_api_ms: 80,
        is_error: false,
        num_turns: 5,
        session_id: "sess".to_string(),
        total_cost_usd: None,
        usage: None,
        result: Some("ok".to_string()),
    };
    assert_eq!(msg.subtype, "final");
    assert_eq!(msg.num_turns, 5);
    assert_eq!(msg.result, Some("ok".to_string()));
}

#[test]
fn test_agent_options_default() {
    let options = ClaudeAgentOptions::default();
    assert!(options.allowed_tools.is_empty());
    assert!(options.system_prompt.is_none());
    assert!(options.permission_mode.is_none());
    assert!(!options.continue_conversation);
    assert!(options.resume.is_none());
    assert!(options.max_turns.is_none());
    assert!(options.model.is_none());
    assert!(!options.fork_session);
}
