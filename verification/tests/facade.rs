use mcp_client::client::{Client, Step};
use mcp_client::error::Error;
use mcp_client::handshake::LATEST_PROTOCOL_VERSION;
use mcp_client::protocol::{Message, Notification, Request, RequestId, Response};
use mcp_client::types::{
    CallToolResult, Implementation, InitializeResult, ListToolsResult, MessageContent,
    ServerCapabilities, Tool,
};
use serde_json::Value;

fn handshake_result(tools: bool) -> InitializeResult {
    InitializeResult {
        protocol_version: LATEST_PROTOCOL_VERSION.to_string(),
        capabilities: ServerCapabilities { logging: true, prompts: false, resources: false, tools },
        server_info: Implementation { name: "srv".to_string(), version: "1.0".to_string() },
    }
}

fn tool(name: &str, description: &str) -> Tool {
    Tool {
        name: name.to_string(),
        description: Some(description.to_string()),
        input_schema: Value::Null,
    }
}

fn entries(pairs: Vec<(&str, Value)>) -> Value {
    let mut map = serde_json::Map::new();
    for (key, value) in pairs {
        map.insert(key.to_string(), value);
    }
    Value::Object(map)
}

fn segment(s: &str) -> MessageContent {
    MessageContent::Text { text: s.to_string() }
}

fn request_of(method: &str, params: Option<Value>, id: i64) -> Message {
    Message::Request(Request { method: method.to_string(), params, id: RequestId::Number(id) })
}

#[test]
fn capabilities_are_absent_before_a_handshake() {
    let client = Client::new();
    assert_eq!(client.capabilities(), None);
}

#[test]
fn handshake_sends_request_then_notification_and_caches() {
    let mut client = Client::new();
    let info = entries(vec![("name", Value::from("cli")), ("version", Value::from("0.1"))]);
    let offered = entries(vec![]);
    let (pending, first) = client.initialize(info.clone(), offered.clone());
    let params = entries(vec![
        ("clientInfo", info),
        ("capabilities", offered),
        ("protocolVersion", Value::from("2024-11-05")),
    ]);
    assert_eq!(first, request_of("initialize", Some(params), 1));
    assert_eq!(pending.method, "initialize");
    assert_eq!(client.capabilities(), None);

    client.ingest(Some(Ok(Message::Response(Response {
        id: RequestId::Number(1),
        result: Some(Value::Null),
        error: None,
    }))));
    assert_eq!(client.poll(&pending), Step::Done(Ok(Value::Null)));

    let (result, second) = client.complete_initialize(Ok(handshake_result(true))).unwrap();
    assert_eq!(result, handshake_result(true));
    assert_eq!(
        second,
        Message::Notification(Notification {
            method: "notifications/initialized".to_string(),
            params: None,
        })
    );
    assert_eq!(client.capabilities(), Some(result.capabilities));
    assert_eq!(client.capabilities(), Some(handshake_result(true).capabilities));
}

#[test]
fn failed_handshake_sends_no_notification_and_caches_nothing() {
    let mut client = Client::new();
    let _ = client.initialize(Value::Null, Value::Null);
    let failure = Error::Protocol { code: -32600, message: "bad".to_string(), data: None };
    assert_eq!(client.complete_initialize(Err(failure.clone())), Err(failure));
    assert_eq!(client.capabilities(), None);
}

#[test]
fn failed_handshake_keeps_the_earlier_capabilities() {
    let mut client = Client::new();
    client.complete_initialize(Ok(handshake_result(true))).unwrap();
    let failure = Error::Other("Request to 'initialize' timed out after 30 seconds".to_string());
    assert_eq!(client.complete_initialize(Err(failure.clone())), Err(failure));
    assert_eq!(client.capabilities(), Some(handshake_result(true).capabilities));
}

#[test]
fn second_handshake_overwrites_the_cache() {
    let mut client = Client::new();
    client.complete_initialize(Ok(handshake_result(true))).unwrap();
    client.complete_initialize(Ok(handshake_result(false))).unwrap();
    assert_eq!(client.capabilities(), Some(handshake_result(false).capabilities));
    assert_ne!(client.capabilities(), Some(handshake_result(true).capabilities));
}

#[test]
fn facade_requests_use_their_method_names() {
    let mut client = Client::new();
    let (_, m) = client.list_tools();
    assert_eq!(m, request_of("tools/list", None, 1));
    let (_, m) = client.call_tool("echo", Value::from(1));
    let params = entries(vec![("name", Value::from("echo")), ("arguments", Value::from(1))]);
    assert_eq!(m, request_of("tools/call", Some(params), 2));
    let (_, m) = client.read_resource("file:///notes.txt");
    let params = entries(vec![("uri", Value::from("file:///notes.txt"))]);
    assert_eq!(m, request_of("resources/read", Some(params), 3));
    let (p, m) = client.list_resources();
    assert_eq!(m, request_of("resources/list", None, 4));
    assert_eq!(p.method, "resources/list");
    assert_eq!(p.id, RequestId::Number(4));
}

#[test]
fn tool_result_without_error_flag_passes() {
    let result = CallToolResult { content: vec![segment("fine")], is_error: false };
    assert_eq!(Client::complete_call_tool("echo", result.clone()), Ok(result));
}

#[test]
fn tool_error_joins_every_text_segment() {
    let result = CallToolResult {
        content: vec![
            segment("first"),
            MessageContent::Image { data: "AAAA".to_string(), mime_type: "image/png".to_string() },
            segment("second"),
            MessageContent::Resource { uri: "file:///x".to_string() },
            segment("third"),
        ],
        is_error: true,
    };
    assert_eq!(
        Client::complete_call_tool("build", result),
        Err(Error::Other("Tool 'build' execution failed: first\nsecond\nthird".to_string()))
    );
}

#[test]
fn tool_error_with_one_segment_has_no_newline() {
    let result = CallToolResult { content: vec![segment("only")], is_error: true };
    assert_eq!(
        Client::complete_call_tool("t", result),
        Err(Error::Other("Tool 't' execution failed: only".to_string()))
    );
}

#[test]
fn tool_error_keeps_empty_segments() {
    let result = CallToolResult { content: vec![segment(""), segment("b")], is_error: true };
    assert_eq!(
        Client::complete_call_tool("t", result),
        Err(Error::Other("Tool 't' execution failed: \nb".to_string()))
    );
}

#[test]
fn tool_error_without_text_has_an_empty_tail() {
    let result = CallToolResult {
        content: vec![MessageContent::Resource { uri: "u".to_string() }],
        is_error: true,
    };
    assert_eq!(
        Client::complete_call_tool("t", result),
        Err(Error::Other("Tool 't' execution failed: ".to_string()))
    );
    let empty = CallToolResult { content: vec![], is_error: true };
    assert_eq!(
        Client::complete_call_tool("t", empty),
        Err(Error::Other("Tool 't' execution failed: ".to_string()))
    );
}

#[test]
fn get_tool_finds_the_first_of_that_name() {
    let listing = ListToolsResult {
        tools: vec![tool("a", "one"), tool("b", "two"), tool("b", "three"), tool("c", "four")],
    };
    assert_eq!(Client::get_tool(listing, "b"), Some(tool("b", "two")));
}

#[test]
fn get_tool_returns_none_for_an_unknown_name() {
    let listing = ListToolsResult { tools: vec![tool("a", "one")] };
    assert_eq!(Client::get_tool(listing, "z"), None);
    assert_eq!(Client::get_tool(ListToolsResult { tools: vec![] }, "a"), None);
}

#[test]
fn unreadable_handshake_answer_is_passed_on() {
    let mut client = Client::new();
    let failure = Error::Serialization("missing field `capabilities`".to_string());
    assert_eq!(client.complete_initialize(Err(failure.clone())), Err(failure));
    assert_eq!(client.capabilities(), None);
    let failure = Error::Transport("broken pipe".to_string());
    assert_eq!(client.complete_initialize(Err(failure.clone())), Err(failure));
}

#[test]
fn call_tool_parameters_hold_name_and_arguments() {
    let mut client = Client::new();
    let arguments = entries(vec![("path", Value::from("/tmp")), ("depth", Value::from(2))]);
    let (pending, message) = client.call_tool("list_dir", arguments.clone());
    assert_eq!(pending.method, "tools/call");
    match message {
        Message::Request(request) => {
            let params = request.params.unwrap();
            assert_eq!(params.get("name"), Some(&Value::String("list_dir".to_string())));
            assert_eq!(params.get("arguments"), Some(&arguments));
            assert_eq!(params.as_object().unwrap().len(), 2);
        }
        other => panic!("not a request: {:?}", other),
    }
}

#[test]
fn initialize_parameters_name_the_protocol_version() {
    let mut client = Client::new();
    let (_, message) = client.initialize(Value::from("me"), Value::from(true));
    match message {
        Message::Request(request) => {
            assert_eq!(request.method, "initialize");
            let params = request.params.unwrap();
            assert_eq!(params.get("clientInfo"), Some(&Value::from("me")));
            assert_eq!(params.get("capabilities"), Some(&Value::from(true)));
            assert_eq!(params.get("protocolVersion"), Some(&Value::from(LATEST_PROTOCOL_VERSION)));
            assert_eq!(params.as_object().unwrap().len(), 3);
        }
        other => panic!("not a request: {:?}", other),
    }
}
