use serde_json::Value;
use vulcan::chat::{ChatMessage as VulcanChatMessage, ChatRole};
use vulcan::error::Error;
use vulcan::openai::{
    ChatMessage, ChatToolCall, ChatToolDefinition, ChatToolFunctionCall,
};
use vulcan::tools::{ToolCall as VulcanToolCall, ToolDefinition};

fn object(key: &str, value: &str) -> Value {
    let mut map = serde_json::Map::new();
    map.insert(key.to_string(), Value::String(value.to_string()));
    Value::Object(map)
}

fn wire_call(id: &str, name: &str, arguments: &str) -> ChatToolCall {
    ChatToolCall {
        id: id.to_string(),
        tool_type: "function".to_string(),
        function: ChatToolFunctionCall {
            name: name.to_string(),
            arguments: arguments.to_string(),
        },
    }
}

#[test]
fn test_from_vulcan_message() {
    let vulcan_message = VulcanChatMessage {
        role: ChatRole::User,
        content: "Hello, world!".to_string(),
        tool_calls: None,
        tool_call_id: None,
    };

    let chat_message = ChatMessage::from_vulcan_message(&vulcan_message);

    assert_eq!(chat_message.role, "user");
    assert_eq!(chat_message.content, Some("Hello, world!".to_string()));
    assert!(chat_message.tool_calls.is_none());
    assert!(chat_message.tool_call_id.is_none());
}

#[test]
fn test_to_vulcan_message() {
    let chat_message = ChatMessage {
        role: "assistant".to_string(),
        content: Some("Hello, world!".to_string()),
        tool_calls: None,
        tool_call_id: None,
    };

    let vulcan_message = chat_message.to_vulcan_message().unwrap();

    assert_eq!(vulcan_message.role.to_string(), "assistant");
    assert_eq!(vulcan_message.content, "Hello, world!");
    assert!(vulcan_message.tool_calls.is_none());
    assert!(vulcan_message.tool_call_id.is_none());
}

#[test]
fn test_to_vulcan_message_no_content() {
    let chat_message = ChatMessage {
        role: "assistant".to_string(),
        content: None,
        tool_calls: None,
        tool_call_id: None,
    };

    let vulcan_message = chat_message.to_vulcan_message().unwrap();

    assert_eq!(vulcan_message.role.to_string(), "assistant");
    assert_eq!(vulcan_message.content, "");
    assert!(vulcan_message.tool_calls.is_none());
    assert!(vulcan_message.tool_call_id.is_none());
}

#[test]
fn test_from_vulcan_call() {
    let vulcan_call = VulcanToolCall {
        id: "123".to_string(),
        name: "test_function".to_string(),
        args: object("arg1", "value1"),
    };

    let chat_tool_call = ChatToolCall::from_vulcan_call(&vulcan_call);

    assert_eq!(chat_tool_call.id, "123");
    assert_eq!(chat_tool_call.tool_type, "function");
    assert_eq!(chat_tool_call.function.name, "test_function");
    assert_eq!(chat_tool_call.function.arguments, "{\"arg1\":\"value1\"}");
}

#[test]
fn test_to_vulcan_call() {
    let chat_tool_call = ChatToolCall {
        id: "123".to_string(),
        tool_type: "function".to_string(),
        function: ChatToolFunctionCall {
            name: "test_function".to_string(),
            arguments: "{\"arg1\":\"value1\"}".to_string(),
        },
    };

    let vulcan_call = chat_tool_call.to_vulcan_call().unwrap();

    assert_eq!(vulcan_call.id, "123");
    assert_eq!(vulcan_call.name, "test_function");
    assert_eq!(vulcan_call.args, object("arg1", "value1"));
}

#[test]
fn tool_call_survives_the_round_trip() {
    let call = VulcanToolCall {
        id: "123".to_string(),
        name: "test_function".to_string(),
        args: object("arg1", "value1"),
    };

    let back = ChatToolCall::from_vulcan_call(&call).to_vulcan_call().unwrap();

    assert_eq!(back.id, call.id);
    assert_eq!(back.name, call.name);
    assert_eq!(back.args, call.args);
}

#[test]
fn function_call_is_marked_as_function() {
    let wire = ChatToolCall::function("a".to_string(), "b".to_string(), "{}".to_string());
    assert_eq!(wire.id, "a");
    assert_eq!(wire.tool_type, "function");
    assert_eq!(wire.function.name, "b");
    assert_eq!(wire.function.arguments, "{}");
}

#[test]
fn arguments_are_written_compactly_and_nested() {
    let mut inner = serde_json::Map::new();
    inner.insert("n".to_string(), Value::from(3));
    inner.insert("ok".to_string(), Value::Bool(true));
    let mut outer = serde_json::Map::new();
    outer.insert("list".to_string(), Value::Array(vec![Value::Null, Value::Object(inner)]));
    let call = VulcanToolCall {
        id: "1".to_string(),
        name: "f".to_string(),
        args: Value::Object(outer),
    };
    let wire = ChatToolCall::from_vulcan_call(&call);
    assert_eq!(wire.function.arguments, "{\"list\":[null,{\"n\":3,\"ok\":true}]}");
}

#[test]
fn malformed_arguments_are_a_provider_error() {
    let wire = wire_call("1", "f", "{not json");
    match wire.to_vulcan_call() {
        Err(Error::Provider(message)) => {
            assert_eq!(message, "key must be a string at line 1 column 2");
        }
        other => panic!("expected a provider error, got {:?}", other),
    }
}

#[test]
fn empty_arguments_are_a_provider_error() {
    let wire = wire_call("1", "f", "");
    assert!(matches!(wire.to_vulcan_call(), Err(Error::Provider(_))));
}

#[test]
fn with_arguments_takes_the_value_it_was_given() {
    let wire = wire_call("7", "search", "ignored");
    let call = wire.with_arguments(Ok(Value::Bool(false))).unwrap();
    assert_eq!(call.id, "7");
    assert_eq!(call.name, "search");
    assert_eq!(call.args, Value::Bool(false));
}

#[test]
fn with_arguments_hands_on_the_failure() {
    let wire = wire_call("7", "search", "ignored");
    match wire.with_arguments(Err("no good".to_string())) {
        Err(Error::Provider(message)) => assert_eq!(message, "no good"),
        other => panic!("expected a provider error, got {:?}", other),
    }
}

#[test]
fn tool_is_wrapped_in_a_function_envelope() {
    let tool = ToolDefinition {
        name: "search".to_string(),
        description: "Search the web".to_string(),
        params: object("type", "object"),
    };
    let wire = ChatToolDefinition::from_vulcan_tool(&tool);
    assert_eq!(wire.tool_type, "function");
    assert_eq!(wire.function.name, "search");
    assert_eq!(wire.function.description, Some("Search the web".to_string()));
    assert_eq!(wire.function.parameters, object("type", "object"));
}

#[test]
fn message_with_tool_calls_goes_to_the_wire() {
    let message = VulcanChatMessage {
        role: ChatRole::Assistant,
        content: "".to_string(),
        tool_calls: Some(vec![
            VulcanToolCall {
                id: "a".to_string(),
                name: "first".to_string(),
                args: object("k", "v"),
            },
            VulcanToolCall { id: "b".to_string(), name: "second".to_string(), args: Value::Null },
        ]),
        tool_call_id: None,
    };
    let wire = ChatMessage::from_vulcan_message(&message);
    assert_eq!(wire.role, "assistant");
    assert_eq!(wire.content, Some("".to_string()));
    let calls = wire.tool_calls.unwrap();
    assert_eq!(calls.len(), 2);
    assert_eq!(calls[0].id, "a");
    assert_eq!(calls[0].tool_type, "function");
    assert_eq!(calls[0].function.name, "first");
    assert_eq!(calls[0].function.arguments, "{\"k\":\"v\"}");
    assert_eq!(calls[1].id, "b");
    assert_eq!(calls[1].function.name, "second");
    assert_eq!(calls[1].function.arguments, "null");
    assert!(wire.tool_call_id.is_none());
}

#[test]
fn tool_message_keeps_its_call_id() {
    let message = VulcanChatMessage::tool("call_9".to_string(), "done".to_string());
    let wire = ChatMessage::from_vulcan_message(&message);
    assert_eq!(wire.role, "tool");
    assert_eq!(wire.content, Some("done".to_string()));
    assert!(wire.tool_calls.is_none());
    assert_eq!(wire.tool_call_id, Some("call_9".to_string()));
    let back = wire.to_vulcan_message().unwrap();
    assert_eq!(back.role, ChatRole::Tool);
    assert_eq!(back.content, "done");
    assert_eq!(back.tool_call_id, Some("call_9".to_string()));
}

#[test]
fn empty_call_list_stays_an_empty_list() {
    let message = VulcanChatMessage {
        role: ChatRole::Assistant,
        content: "x".to_string(),
        tool_calls: Some(vec![]),
        tool_call_id: None,
    };
    let wire = ChatMessage::from_vulcan_message(&message);
    assert_eq!(wire.tool_calls.as_ref().map(|calls| calls.len()), Some(0));
    let back = wire.to_vulcan_message().unwrap();
    assert_eq!(back.tool_calls.map(|calls| calls.len()), Some(0));
}

#[test]
fn missing_content_with_tool_calls_reads_as_empty_text() {
    let wire = ChatMessage {
        role: "assistant".to_string(),
        content: None,
        tool_calls: Some(vec![wire_call("123", "test_function", "{\"arg1\":\"value1\"}")]),
        tool_call_id: None,
    };
    let message = wire.to_vulcan_message().unwrap();
    assert_eq!(message.role, ChatRole::Assistant);
    assert_eq!(message.content, "");
    let calls = message.tool_calls.unwrap();
    assert_eq!(calls.len(), 1);
    assert_eq!(calls[0].id, "123");
    assert_eq!(calls[0].name, "test_function");
    assert_eq!(calls[0].args, object("arg1", "value1"));
}

#[test]
fn unknown_role_is_refused() {
    let wire = ChatMessage {
        role: "observer".to_string(),
        content: Some("hi".to_string()),
        tool_calls: None,
        tool_call_id: None,
    };
    match wire.to_vulcan_message() {
        Err(Error::String(message)) => assert_eq!(message, "Unknown role: observer"),
        other => panic!("expected an error, got {:?}", other),
    }
}

#[test]
fn role_tokens_are_case_sensitive_on_the_wire() {
    let wire = ChatMessage {
        role: "User".to_string(),
        content: None,
        tool_calls: None,
        tool_call_id: None,
    };
    assert!(matches!(wire.to_vulcan_message(), Err(Error::String(_))));
}

#[test]
fn first_unreadable_call_decides_the_error() {
    let wire = ChatMessage {
        role: "observer".to_string(),
        content: None,
        tool_calls: Some(vec![
            wire_call("1", "a", "{}"),
            wire_call("2", "b", "[1,"),
            wire_call("3", "c", "nope"),
        ]),
        tool_call_id: None,
    };
    let expected = wire_call("2", "b", "[1,").to_vulcan_call().unwrap_err();
    let expected = match expected {
        Error::Provider(message) => message,
        other => panic!("expected a provider error, got {:?}", other),
    };
    match wire.to_vulcan_message() {
        Err(Error::Provider(message)) => assert_eq!(message, expected),
        other => panic!("expected a provider error, got {:?}", other),
    }
}

#[test]
fn message_survives_the_round_trip() {
    let message = VulcanChatMessage {
        role: ChatRole::Assistant,
        content: "calling".to_string(),
        tool_calls: Some(vec![VulcanToolCall {
            id: "123".to_string(),
            name: "test_function".to_string(),
            args: object("arg1", "value1"),
        }]),
        tool_call_id: None,
    };
    let back = ChatMessage::from_vulcan_message(&message).to_vulcan_message().unwrap();
    assert_eq!(back.role, message.role);
    assert_eq!(back.content, message.content);
    let calls = back.tool_calls.unwrap();
    assert_eq!(calls.len(), 1);
    assert_eq!(calls[0].id, "123");
    assert_eq!(calls[0].name, "test_function");
    assert_eq!(calls[0].args, object("arg1", "value1"));
    assert!(back.tool_call_id.is_none());
}

#[test]
fn tool_calls_are_read_in_order() {
    let wire = ChatMessage {
        role: "assistant".to_string(),
        content: None,
        tool_calls: Some(vec![wire_call("1", "a", "1"), wire_call("2", "b", "[true]")]),
        tool_call_id: None,
    };
    let calls = wire.read_tool_calls().unwrap().unwrap();
    assert_eq!(calls.len(), 2);
    assert_eq!(calls[0].id, "1");
    assert_eq!(calls[0].name, "a");
    assert_eq!(calls[0].args, Value::from(1));
    assert_eq!(calls[1].id, "2");
    assert_eq!(calls[1].name, "b");
    assert_eq!(calls[1].args, Value::Array(vec![Value::Bool(true)]));
}

#[test]
fn a_message_without_tool_calls_reads_none() {
    let wire = ChatMessage {
        role: "nobody".to_string(),
        content: None,
        tool_calls: None,
        tool_call_id: None,
    };
    assert!(wire.read_tool_calls().unwrap().is_none());
}

#[test]
fn with_tool_calls_hands_on_their_error_before_the_role() {
    let wire = ChatMessage {
        role: "observer".to_string(),
        content: None,
        tool_calls: None,
        tool_call_id: None,
    };
    match wire.with_tool_calls(Err(Error::Provider("unreadable".to_string()))) {
        Err(Error::Provider(message)) => assert_eq!(message, "unreadable"),
        other => panic!("expected a provider error, got {:?}", other),
    }
    match wire.with_tool_calls(Ok(None)) {
        Err(Error::String(message)) => assert_eq!(message, "Unknown role: observer"),
        other => panic!("expected an error, got {:?}", other),
    }
}

#[test]
fn with_tool_calls_takes_the_calls_it_was_given() {
    let wire = ChatMessage {
        role: "assistant".to_string(),
        content: None,
        tool_calls: None,
        tool_call_id: Some("id".to_string()),
    };
    let given = vec![VulcanToolCall {
        id: "9".to_string(),
        name: "search".to_string(),
        args: Value::Null,
    }];
    let message = wire.with_tool_calls(Ok(Some(given))).unwrap();
    assert_eq!(message.role, ChatRole::Assistant);
    assert_eq!(message.content, "");
    assert_eq!(message.tool_call_id, Some("id".to_string()));
    let calls = message.tool_calls.unwrap();
    assert_eq!(calls.len(), 1);
    assert_eq!(calls[0].id, "9");
}
