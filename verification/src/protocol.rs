//! The message envelopes that travel over the transport in either direction.

use vstd::prelude::*;
use vstd::string::StringExecFns;

verus! {

/// `serde_json::Value`, the structured payload of a message. The engine
/// carries such values through and never looks inside one.
#[verifier::external_type_specification]
#[verifier::external_body]
pub struct ExValue(serde_json::Value);

/// Identifier that ties a response to the request it answers.
#[derive(Clone, Copy, Debug, PartialEq, Eq, Structural)]
pub enum RequestId {
    Number(i64),
}

/// A call that expects exactly one response with the same identifier.
#[derive(Clone, Debug, PartialEq)]
pub struct Request {
    pub method: String,
    pub params: Option<serde_json::Value>,
    pub id: RequestId,
}

/// The error object that a peer returns in place of a result.
#[derive(Clone, Debug, PartialEq)]
pub struct ErrorObject {
    pub code: i32,
    pub message: String,
    pub data: Option<serde_json::Value>,
}

/// The answer to a request. A well-formed response carries a result or an
/// error; one with neither is a protocol violation.
#[derive(Clone, Debug, PartialEq)]
pub struct Response {
    pub id: RequestId,
    pub result: Option<serde_json::Value>,
    pub error: Option<ErrorObject>,
}

/// A fire-and-forget message: no identifier, no answer.
#[derive(Clone, Debug, PartialEq)]
pub struct Notification {
    pub method: String,
    pub params: Option<serde_json::Value>,
}

/// One unit of protocol traffic.
#[derive(Clone, Debug, PartialEq)]
pub enum Message {
    Request(Request),
    Response(Response),
    Notification(Notification),
}

impl Request {
    /// Builds the request envelope for `method` under the identifier `id`.
    pub fn new(method: &str, params: Option<serde_json::Value>, id: RequestId) -> (request: Request)
        ensures
            request.method@ == method@,
            request.params == params,
            request.id == id,
    {
        Request { method: String::from_str(method), params, id }
    }
}

impl Notification {
    /// Builds the notification envelope for `method`.
    pub fn new(method: &str, params: Option<serde_json::Value>) -> (notification: Notification)
        ensures
            notification.method@ == method@,
            notification.params == params,
    {
        Notification { method: String::from_str(method), params }
    }
}

/// Whether `message` is a request for `method` with the given parameters and
/// identifier.
pub open spec fn is_request(
    message: Message,
    method: Seq<char>,
    params: Option<serde_json::Value>,
    id: RequestId,
) -> bool {
    match message {
        Message::Request(r) => r.method@ == method && r.params == params && r.id == id,
        _ => false,
    }
}

/// Whether `message` is a notification for `method` with the given
/// parameters.
pub open spec fn is_notification(
    message: Message,
    method: Seq<char>,
    params: Option<serde_json::Value>,
) -> bool {
    match message {
        Message::Notification(n) => n.method@ == method && n.params == params,
        _ => false,
    }
}

/// Whether `message` is the response that answers the request `id`.
pub open spec fn answers(message: Message, id: RequestId) -> bool {
    match message {
        Message::Response(r) => r.id == id,
        _ => false,
    }
}

} // verus!
