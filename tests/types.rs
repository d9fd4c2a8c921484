use femtoclaw_sdk::{ChatRequest, Message, Response, Role, SdkError, ToolCall, ToolRequest, WireMessage};

fn search_args() -> serde_json::Value {
    let mut args = serde_json::Map::new();
    args.insert("q".to_string(), serde_json::Value::String("x".to_string()));
    serde_json::Value::Object(args)
}

#[test]
fn role_tokens_are_lowercase_names() {
    assert_eq!(Role::System.token(), "system");
    assert_eq!(Role::User.token(), "user");
    assert_eq!(Role::Assistant.token(), "assistant");
    assert_eq!(Role::Tool.token(), "tool");
}

#[test]
fn role_tokens_read_back() {
    for role in [Role::System, Role::User, Role::Assistant, Role::Tool] {
        assert_eq!(Role::from_token(&role.token()), Some(role));
    }
}

#[test]
fn unknown_role_tokens_are_refused() {
    assert_eq!(Role::from_token("System"), None);
    assert_eq!(Role::from_token(""), None);
    assert_eq!(Role::from_token("users"), None);
}

#[test]
fn message_constructors_fix_the_role() {
    let s = Message::system("be brief");
    assert_eq!(s.role, Role::System);
    assert_eq!(s.content, "be brief");
    let u = Message::user("hi");
    assert_eq!(u.role, Role::User);
    assert_eq!(u.content, "hi");
    let a = Message::assistant("hello");
    assert_eq!(a.role, Role::Assistant);
    assert_eq!(a.content, "hello");
}

#[test]
fn user_message_request_holds_one_user_turn() {
    let r = ChatRequest::user_message("what time is it");
    assert_eq!(r.messages.len(), 1);
    assert_eq!(r.messages[0].role, Role::User);
    assert_eq!(r.messages[0].content, "what time is it");
}

#[test]
fn chat_request_keeps_order() {
    let r = ChatRequest::new(vec![Message::system("a"), Message::user("b"), Message::assistant("c")]);
    let contents: Vec<&str> = r.messages.iter().map(|m| m.content.as_str()).collect();
    assert_eq!(contents, vec!["a", "b", "c"]);
}

#[test]
fn chat_request_wire_round_trip() {
    let r = ChatRequest::new(vec![
        Message::system("rules"),
        Message::user("question"),
        Message::assistant("answer"),
        Message { role: Role::Tool, content: "output".to_string() },
    ]);
    let wire = r.to_wire();
    let roles: Vec<&str> = wire.iter().map(|w| w.role.as_str()).collect();
    assert_eq!(roles, vec!["system", "user", "assistant", "tool"]);
    let back = ChatRequest::from_wire(&wire).unwrap();
    assert_eq!(back.messages.len(), 4);
    for (a, b) in r.messages.iter().zip(back.messages.iter()) {
        assert_eq!(a.role, b.role);
        assert_eq!(a.content, b.content);
    }
}

#[test]
fn empty_chat_request_round_trip() {
    let r = ChatRequest::new(Vec::new());
    let wire = r.to_wire();
    assert!(wire.is_empty());
    assert!(ChatRequest::from_wire(&wire).unwrap().messages.is_empty());
}

#[test]
fn unknown_role_in_wire_is_a_serialization_error() {
    let wire = vec![
        WireMessage { role: "user".to_string(), content: "a".to_string() },
        WireMessage { role: "robot".to_string(), content: "b".to_string() },
        WireMessage { role: "alien".to_string(), content: "c".to_string() },
    ];
    match ChatRequest::from_wire(&wire) {
        Err(SdkError::Serialization(detail)) => assert_eq!(detail, "unknown role: robot"),
        other => panic!("unexpected {:?}", other.map(|r| r.messages.len())),
    }
}

#[test]
fn message_response_is_a_message() {
    let r = Response::message("hello");
    assert!(r.is_message());
    assert!(!r.is_tool_call());
    assert_eq!(r.message.as_deref(), Some("hello"));
}

#[test]
fn tool_call_response_is_a_tool_call() {
    let r = Response::tool_call("search", search_args());
    assert!(r.is_tool_call());
    assert!(!r.is_message());
    let call = r.tool_call.unwrap();
    assert_eq!(call.tool, "search");
    assert_eq!(call.args, search_args());
}

#[test]
fn response_with_neither_field() {
    let r = Response { message: None, tool_call: None };
    assert!(!r.is_message());
    assert!(!r.is_tool_call());
}

#[test]
fn tool_call_and_request_constructors() {
    let c = ToolCall::new("search", search_args());
    assert_eq!(c.tool, "search");
    assert_eq!(c.args, search_args());
    let t = ToolRequest::new("calc", serde_json::Value::Null);
    assert_eq!(t.tool, "calc");
    assert_eq!(t.args, serde_json::Value::Null);
}
