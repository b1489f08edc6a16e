use agent_sdk::extensions::MessageVecExt;
use agent_sdk::stream::{ResponseFilter, StreamStep};
use agent_sdk::types::{AssistantMessage, ContentBlock, Message, ResultMessage};

fn assistant(texts: &[&str]) -> Message {
    Message::Assistant(AssistantMessage {
        content: texts
            .iter()
            .map(|t| ContentBlock::Text { text: t.to_string() })
            .collect(),
        model: "test-model".to_string(),
        parent_tool_use_id: None,
    })
}

fn result_message() -> Message {
    Message::Result(ResultMessage {
        subtype: "done".to_string(),
        duration_ms: 10,
        duration_api_ms: 5,
        is_error: false,
        num_turns: 1,
        session_id: "s".to_string(),
        total_cost_usd: None,
        usage: None,
        result: None,
    })
}

fn create_test_messages() -> Vec<Message> {
    vec![assistant(&["Hello", "World"]), assistant(&["Goodbye"])]
}

#[test]
fn test_text_content() {
    let messages = create_test_messages();
    let text = messages.text_content();
    assert_eq!(text, "Hello\nWorld\nGoodbye");
}

#[test]
fn test_assistant_messages() {
    let messages = create_test_messages();
    let assistants = messages.assistant_messages();
    assert_eq!(assistants.len(), 2);
}

#[test]
fn test_last_assistant() {
    let messages = create_test_messages();
    let last = messages.last_assistant();
    assert!(last.is_some());
    let text = last
        .unwrap()
        .content
        .iter()
        .filter_map(|b| match b {
            ContentBlock::Text { text } => Some(text.as_str()),
            _ => None,
        })
        .collect::<Vec<_>>()
        .join("");
    assert_eq!(text, "Goodbye");
}

#[test]
fn test_has_assistant_messages() {
    let messages = create_test_messages();
    assert!(messages.has_assistant_messages());

    let empty: Vec<Message> = vec![];
    assert!(!empty.has_assistant_messages());
}

#[test]
fn test_message_methods() {
    let msg = assistant(&["Test"]);

    assert!(msg.is_assistant());
    assert!(!msg.is_user());
    assert!(!msg.is_result());
    assert!(msg.as_assistant().is_some());
    assert_eq!(msg.text_content(), Some("Test".to_string()));
}

#[test]
fn test_text_blocks() {
    let messages = create_test_messages();
    let blocks = messages.text_blocks();
    assert_eq!(
        blocks,
        vec!["Hello".to_string(), "World".to_string(), "Goodbye".to_string()]
    );
}

#[test]
fn test_result_message_lookup() {
    let messages = vec![assistant(&["a"]), result_message(), assistant(&["b"])];
    let found = messages.result_message();
    assert!(found.is_some());
    assert_eq!(found.unwrap().subtype, "done");
}

#[test]
fn test_response_stream_terminates_after_result() {
    // The response-scoped stream yields messages up to and including the
    // result message, then ends even though more messages follow.
    let mut filter = ResponseFilter::new();
    assert!(matches!(
        filter.step(Some(assistant(&["one"]))),
        StreamStep::Yield(Message::Assistant(_))
    ));
    assert!(matches!(
        filter.step(Some(result_message())),
        StreamStep::Yield(Message::Result(_))
    ));
    assert!(matches!(filter.step(Some(assistant(&["late"]))), StreamStep::End));
    assert!(matches!(filter.step(None), StreamStep::End));
}

#[test]
fn test_response_stream_ends_on_channel_close() {
    // With no result message ever seen, the stream ends when the channel
    // closes.
    let mut filter = ResponseFilter::new();
    assert!(matches!(
        filter.step(Some(assistant(&["only"]))),
        StreamStep::Yield(_)
    ));
    assert!(matches!(filter.step(None), StreamStep::End));
    assert!(matches!(filter.step(Some(assistant(&["gone"]))), StreamStep::End));
}
