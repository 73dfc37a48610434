//! The structures that the handshake and the tool and resource calls return.

use vstd::prelude::*;

verus! {

/// Name and version of a client or server implementation.
#[derive(Clone, Debug, PartialEq)]
pub struct Implementation {
    pub name: String,
    pub version: String,
}

/// The features that a server advertised in the handshake.
#[derive(Clone, Copy, Debug, PartialEq, Eq, Structural)]
pub struct ServerCapabilities {
    pub logging: bool,
    pub prompts: bool,
    pub resources: bool,
    pub tools: bool,
}

/// What the server answers to `initialize`.
#[derive(Clone, Debug, PartialEq)]
pub struct InitializeResult {
    pub protocol_version: String,
    pub capabilities: ServerCapabilities,
    pub server_info: Implementation,
}

/// A tool that the server offers.
#[derive(Debug, PartialEq)]
pub struct Tool {
    pub name: String,
    pub description: Option<String>,
    pub input_schema: serde_json::Value,
}

/// What the server answers to `tools/list`.
#[derive(Debug, PartialEq)]
pub struct ListToolsResult {
    pub tools: Vec<Tool>,
}

/// One segment of a tool's output.
#[derive(Clone, Debug, PartialEq)]
pub enum MessageContent {
    Text { text: String },
    Image { data: String, mime_type: String },
    Resource { uri: String },
}

/// What the server answers to `tools/call`.
#[derive(Clone, Debug, PartialEq)]
pub struct CallToolResult {
    pub content: Vec<MessageContent>,
    pub is_error: bool,
}

} // verus!
