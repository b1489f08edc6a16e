use agent_sdk::builders::ClaudeOptionsBuilder;
use agent_sdk::facade::QuickQuery;
use agent_sdk::types::{ClaudeAgentOptions, SystemPromptConfig};

#[test]
fn test_builder_basic() {
    let options = ClaudeOptionsBuilder::new()
        .system_prompt("test".to_string())
        .max_turns(5)
        .model("sonnet-4-5".to_string())
        .build();

    assert!(matches!(options.system_prompt, Some(SystemPromptConfig::Text(ref s)) if s == "test"));
    assert_eq!(options.max_turns, Some(5));
    assert_eq!(options.model, Some("sonnet-4-5".to_string()));
}

#[test]
fn test_builder_tools() {
    let options = ClaudeOptionsBuilder::new()
        .allow_tools(vec!["Read".to_string(), "Write".to_string()])
        .deny_tool("Bash".to_string())
        .build();

    assert_eq!(options.allowed_tools, vec!["Read".to_string(), "Write".to_string()]);
    assert_eq!(options.disallowed_tools, vec!["Bash".to_string()]);
}

#[test]
fn test_builder_session() {
    let options = ClaudeOptionsBuilder::new().resume_session("session-123".to_string()).build();

    assert_eq!(options.resume, Some("session-123".to_string()));
    assert!(!options.fork_session);
}

#[test]
fn test_builder_fork() {
    let options = ClaudeOptionsBuilder::new().fork_session("session-456".to_string()).build();

    assert_eq!(options.resume, Some("session-456".to_string()));
    assert!(options.fork_session);
}

#[test]
fn test_quick_constructors() {
    let opt1 = ClaudeAgentOptions::with_system_prompt("test".to_string());
    assert!(matches!(opt1.system_prompt, Some(SystemPromptConfig::Text(ref s)) if s == "test"));

    let opt2 = ClaudeAgentOptions::with_model("sonnet-4-5".to_string());
    assert_eq!(opt2.model, Some("sonnet-4-5".to_string()));
}

#[test]
fn test_quick_query_builder() {
    let query = QuickQuery::new("test prompt".to_string())
        .with_system_prompt("system".to_string())
        .max_turns(5)
        .with_model("sonnet-4-5".to_string())
        .allow_tools(vec!["Read".to_string(), "Write".to_string()]);

    assert_eq!(query.prompt, "test prompt");
}

#[test]
fn test_quick_query_new() {
    let query = QuickQuery::new("test".to_string());
    assert_eq!(query.prompt, "test");
}

#[test]
fn test_builder_more_fields() {
    let options = ClaudeOptionsBuilder::new()
        .cwd("/tmp/work".to_string())
        .add_directory("/tmp/extra".to_string())
        .env("KEY".to_string(), "VALUE".to_string())
        .continue_conversation(true)
        .permission_prompt_tool("PromptTool".to_string())
        .settings("settings.json".to_string())
        .max_buffer_size(4096)
        .user("someone".to_string())
        .include_partial_messages(true)
        .build();

    assert_eq!(options.cwd, Some("/tmp/work".to_string()));
    assert_eq!(options.add_dirs, vec!["/tmp/extra".to_string()]);
    assert_eq!(options.env, vec![("KEY".to_string(), "VALUE".to_string())]);
    assert!(options.continue_conversation);
    assert_eq!(options.permission_prompt_tool_name, Some("PromptTool".to_string()));
    assert_eq!(options.settings, Some("settings.json".to_string()));
    assert_eq!(options.max_buffer_size, Some(4096));
    assert_eq!(options.user, Some("someone".to_string()));
    assert!(options.include_partial_messages);
    assert!(!options.fork_session);
}

#[test]
fn test_env_later_entry_wins() {
    // Entries are applied in order; a repeated name keeps both entries in
    // the list, and the later one takes effect.
    let options = ClaudeOptionsBuilder::new()
        .env("KEY".to_string(), "first".to_string())
        .env("KEY".to_string(), "second".to_string())
        .build();
    assert_eq!(
        options.env,
        vec![
            ("KEY".to_string(), "first".to_string()),
            ("KEY".to_string(), "second".to_string())
        ]
    );
}

#[test]
fn test_builder_preset_prompts() {
    let options = ClaudeOptionsBuilder::new().system_prompt_preset("expert".to_string()).build();
    match options.system_prompt {
        Some(SystemPromptConfig::Preset(p)) => {
            assert_eq!(p.kind, "preset");
            assert_eq!(p.preset, "expert");
            assert_eq!(p.append, None);
        }
        _ => panic!("Expected preset prompt"),
    }

    let options = ClaudeOptionsBuilder::new()
        .system_prompt_preset_with_append("expert".to_string(), "extra".to_string())
        .build();
    match options.system_prompt {
        Some(SystemPromptConfig::Preset(p)) => {
            assert_eq!(p.preset, "expert");
            assert_eq!(p.append, Some("extra".to_string()));
        }
        _ => panic!("Expected preset prompt"),
    }
}
