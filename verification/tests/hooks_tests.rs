use agent_sdk::hooks::{HookManager, HookMatcherConfig, HookRegistry};

#[test]
fn test_hook_matcher_wildcard() {
    let matcher = HookMatcherConfig::new("*".to_string(), vec!["hook_0".to_string()]);

    assert!(matcher.matches("Bash"));
    assert!(matcher.matches("Read"));
    assert!(matcher.matches("Write"));
}

#[test]
fn test_hook_matcher_specific() {
    let matcher = HookMatcherConfig::new("Bash".to_string(), vec!["hook_0".to_string()]);

    assert!(matcher.matches("Bash"));
    assert!(!matcher.matches("Read"));
    assert!(!matcher.matches("Write"));
}

#[test]
fn test_hook_registry_creation() {
    let registry = HookRegistry::new();
    assert!(registry.is_empty());
    assert_eq!(registry.len(), 0);
}

#[test]
fn test_hook_registry_register() {
    let mut registry = HookRegistry::new();

    let id = registry.register();
    assert_eq!(id, "hook_0");
    assert_eq!(registry.len(), 1);
    assert!(registry.contains(&id));
}

#[test]
fn test_hook_registry_multiple_callbacks() {
    let mut registry = HookRegistry::new();

    let id1 = registry.register();
    let id2 = registry.register();

    assert_eq!(id1, "hook_0");
    assert_eq!(id2, "hook_1");
    assert_eq!(registry.len(), 2);
}

#[test]
fn test_hook_registry_unregister() {
    let mut registry = HookRegistry::new();

    let id = registry.register();
    assert_eq!(registry.len(), 1);

    let removed = registry.unregister(&id);
    assert!(removed);
    assert_eq!(registry.len(), 0);
    assert!(!registry.contains(&id));
}

#[test]
fn test_hook_id_never_reused() {
    let mut registry = HookRegistry::new();
    let id0 = registry.register();
    assert!(registry.unregister(&id0));
    assert!(!registry.contains(&id0));
    let id1 = registry.register();
    assert_eq!(id1, "hook_1");
    assert_ne!(id0, id1);
}

#[test]
fn test_hook_manager_creation() {
    let manager = HookManager::new();
    assert!(manager.registry.is_empty());
    assert!(manager.matchers.is_empty());
}

#[test]
fn test_hook_manager_add_matcher() {
    let mut manager = HookManager::new();

    let callback_id = manager.register_callback();
    let matcher = HookMatcherConfig::new("Bash".to_string(), vec![callback_id.clone()]);

    manager.add_matcher("PreToolUse".to_string(), matcher);

    let matchers = manager.get_matchers("PreToolUse");
    assert!(matchers.is_some());
    assert_eq!(matchers.unwrap().len(), 1);
}

#[test]
fn test_hook_manager_find_matching_callbacks() {
    let mut manager = HookManager::new();

    let callback_id = manager.register_callback();
    let matcher = HookMatcherConfig::new("Bash".to_string(), vec![callback_id.clone()]);

    manager.add_matcher("PreToolUse".to_string(), matcher);

    let matches = manager.find_matching_callbacks("PreToolUse", "Bash");
    assert_eq!(matches.len(), 1);
    assert_eq!(matches[0], callback_id);

    let no_matches = manager.find_matching_callbacks("PreToolUse", "Read");
    assert_eq!(no_matches.len(), 0);
}

#[test]
fn test_hook_manager_matching_order() {
    let mut manager = HookManager::new();

    let id0 = manager.register_callback();
    let id1 = manager.register_callback();
    manager.add_matcher(
        "PreToolUse".to_string(),
        HookMatcherConfig::new("*".to_string(), vec![id0.clone()]),
    );
    manager.add_matcher(
        "PreToolUse".to_string(),
        HookMatcherConfig::new("Bash".to_string(), vec![id1.clone()]),
    );

    let matches = manager.find_matching_callbacks("PreToolUse", "Bash");
    assert_eq!(matches, vec![id0, id1]);
}

#[test]
fn test_hook_initialization_config() {
    let mut manager = HookManager::new();
    let id = manager.register_callback();
    manager.add_matcher(
        "PreToolUse".to_string(),
        HookMatcherConfig::new("Bash".to_string(), vec![id]),
    );

    let config = manager.get_initialization_config();
    let entry = config.get("PreToolUse").expect("event entry");
    let arr = entry.as_array().expect("matcher array");
    assert_eq!(arr.len(), 1);
    assert_eq!(arr[0].get("matcher").unwrap().as_str(), Some("Bash"));
    let ids = arr[0].get("callback_ids").unwrap().as_array().unwrap();
    assert_eq!(ids.len(), 1);
    assert_eq!(ids[0].as_str(), Some("hook_0"));
}
