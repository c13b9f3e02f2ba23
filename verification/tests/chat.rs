use vulcan::chat::{ChatMessage, ChatRole, LoopState};
use vulcan::error::Error;
use vulcan::tools::ToolCall;

#[test]
fn every_role_survives_the_round_trip() {
    for role in [ChatRole::User, ChatRole::Assistant, ChatRole::System, ChatRole::Tool] {
        let token = role.to_string();
        assert_eq!(ChatRole::from_string(&token).unwrap(), role);
    }
}

#[test]
fn roles_are_written_as_lowercase_tokens() {
    assert_eq!(ChatRole::User.to_string(), "user");
    assert_eq!(ChatRole::Assistant.to_string(), "assistant");
    assert_eq!(ChatRole::System.to_string(), "system");
    assert_eq!(ChatRole::Tool.to_string(), "tool");
}

#[test]
fn each_token_is_read_as_its_role() {
    assert_eq!(ChatRole::from_string("user").unwrap(), ChatRole::User);
    assert_eq!(ChatRole::from_string("assistant").unwrap(), ChatRole::Assistant);
    assert_eq!(ChatRole::from_string("system").unwrap(), ChatRole::System);
    assert_eq!(ChatRole::from_string("tool").unwrap(), ChatRole::Tool);
}

#[test]
fn unknown_token_is_quoted_in_the_error() {
    match ChatRole::from_string("observer") {
        Err(Error::String(message)) => assert_eq!(message, "Unknown role: observer"),
        other => panic!("expected an error, got {:?}", other),
    }
}

#[test]
fn empty_and_padded_tokens_are_refused() {
    assert!(ChatRole::from_string("").is_err());
    assert!(ChatRole::from_string(" user").is_err());
    assert!(ChatRole::from_string("user ").is_err());
    assert!(ChatRole::from_string("USER").is_err());
}

#[test]
fn user_message_carries_text_only() {
    let message = ChatMessage::user("x".to_string());
    assert_eq!(message.role, ChatRole::User);
    assert_eq!(message.content, "x");
    assert!(message.tool_calls.is_none());
    assert!(message.tool_call_id.is_none());
}

#[test]
fn assistant_message_carries_text_only() {
    let message = ChatMessage::assistant("hello".to_string());
    assert_eq!(message.role, ChatRole::Assistant);
    assert_eq!(message.content, "hello");
    assert!(message.tool_calls.is_none());
    assert!(message.tool_call_id.is_none());
}

#[test]
fn system_message_carries_text_only() {
    let message = ChatMessage::system("be brief".to_string());
    assert_eq!(message.role, ChatRole::System);
    assert_eq!(message.content, "be brief");
    assert!(message.tool_calls.is_none());
    assert!(message.tool_call_id.is_none());
}

#[test]
fn tool_message_names_the_call_it_answers() {
    let message = ChatMessage::tool("call_1".to_string(), "42".to_string());
    assert_eq!(message.role, ChatRole::Tool);
    assert_eq!(message.content, "42");
    assert!(message.tool_calls.is_none());
    assert_eq!(message.tool_call_id, Some("call_1".to_string()));
}

#[test]
fn message_is_shown_with_its_role_in_brackets() {
    let message = ChatMessage::user("Hello, world!".to_string());
    assert_eq!(message.to_string(), "[user]\nHello, world!");
    let message = ChatMessage::tool("id".to_string(), "".to_string());
    assert_eq!(message.to_string(), "[tool]\n");
}

fn asking(calls: Option<Vec<ToolCall>>) -> ChatMessage {
    ChatMessage {
        role: ChatRole::Assistant,
        content: "".to_string(),
        tool_calls: calls,
        tool_call_id: None,
    }
}

fn some_call() -> ToolCall {
    ToolCall { id: "1".to_string(), name: "search".to_string(), args: serde_json::Value::Null }
}

#[test]
fn only_a_filled_call_list_asks_for_tools() {
    assert!(!asking(None).asks_for_tools());
    assert!(!asking(Some(vec![])).asks_for_tools());
    assert!(asking(Some(vec![some_call()])).asks_for_tools());
}

#[test]
fn reply_with_tool_calls_awaits_their_results() {
    let next = LoopState::AwaitingModel.on_message(&asking(Some(vec![some_call()])));
    assert_eq!(next, Some(LoopState::AwaitingToolResult));
}

#[test]
fn reply_without_tool_calls_ends_the_exchange() {
    assert_eq!(LoopState::AwaitingModel.on_message(&asking(None)), None);
    assert_eq!(LoopState::AwaitingModel.on_message(&asking(Some(vec![]))), None);
    let plain = ChatMessage::assistant("done".to_string());
    assert_eq!(LoopState::AwaitingModel.on_message(&plain), None);
}

#[test]
fn tool_result_asks_the_model_again() {
    let result = ChatMessage::tool("1".to_string(), "found".to_string());
    assert_eq!(
        LoopState::AwaitingToolResult.on_message(&result),
        Some(LoopState::AwaitingModel)
    );
}

#[test]
fn a_tool_turn_without_its_call_id_is_ill_formed() {
    let mut message = ChatMessage::tool("call_1".to_string(), "42".to_string());
    assert!(message.is_well_formed());
    message.tool_call_id = None;
    assert!(!message.is_well_formed());
    assert!(ChatMessage::user("x".to_string()).is_well_formed());
    assert!(ChatMessage::assistant("x".to_string()).is_well_formed());
    assert!(ChatMessage::system("x".to_string()).is_well_formed());
    let mut with_id = ChatMessage::user("x".to_string());
    with_id.tool_call_id = Some("stray".to_string());
    assert!(with_id.is_well_formed());
}

#[test]
fn a_tool_run_becomes_a_turn_or_a_tool_error() {
    let turn = ChatMessage::tool_result("call_1".to_string(), Ok("found".to_string())).unwrap();
    assert_eq!(turn.role, ChatRole::Tool);
    assert_eq!(turn.content, "found");
    assert_eq!(turn.tool_call_id, Some("call_1".to_string()));
    assert!(turn.tool_calls.is_none());
    match ChatMessage::tool_result("call_1".to_string(), Err("no network".to_string())) {
        Err(Error::Tool(message)) => assert_eq!(message, "no network"),
        other => panic!("expected a tool error, got {:?}", other),
    }
}
