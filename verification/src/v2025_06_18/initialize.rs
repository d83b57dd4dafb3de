//! Implementation info and the capability flags of the initialize handshake.

use vstd::prelude::*;
use crate::json::Json;
use crate::text::owned;

verus! {

/// The name and version of an MCP implementation.
#[derive(Debug, Clone)]
pub struct Implementation {
    /// Machine-readable name.
    pub name: String,
    /// Version string, such as `1.0.0`.
    pub version: String,
    /// Human-friendly display title.
    pub title: Option<String>,
}

impl Implementation {
    /// The implementation `name` at `version`, untitled.
    pub fn new(name: &str, version: &str) -> (r: Self)
        ensures
            r.name@ == name@,
            r.version@ == version@,
            r.title is None,
    {
        Implementation { name: owned(name), version: owned(version), title: None }
    }

    /// The same implementation with `title` set.
    pub fn with_title(self, title: &str) -> (r: Self)
        ensures
            r.name == self.name,
            r.version == self.version,
            r.title matches Some(t) && t@ == title@,
    {
        Implementation { title: Some(owned(title)), ..self }
    }
}

/// Whether the client notifies changes of its root list.
#[derive(Debug, Clone, Default)]
pub struct RootsCapabilities {
    pub list_changed: Option<bool>,
}

/// Whether the server notifies changes of its prompt list.
#[derive(Debug, Clone, Default)]
pub struct PromptsCapabilities {
    pub list_changed: Option<bool>,
}

/// Whether the server notifies changes of its tool list.
#[derive(Debug, Clone, Default)]
pub struct ToolsCapabilities {
    pub list_changed: Option<bool>,
}

/// Resource subscriptions and list-change notifications of the server.
#[derive(Debug, Clone, Default)]
pub struct ResourcesCapabilities {
    pub subscribe: Option<bool>,
    pub list_changed: Option<bool>,
}

/// Logging support of the server and the levels it accepts.
#[derive(Debug, Clone, Default)]
pub struct LoggingCapabilities {
    pub enabled: Option<bool>,
    pub levels: Option<Vec<String>>,
}

/// Completion support of the server.
#[derive(Debug, Clone, Default)]
pub struct CompletionsCapabilities {
    pub enabled: Option<bool>,
}

/// Whether the client supports sampling.
#[derive(Debug, Clone, Default)]
pub struct SamplingCapabilities {
    pub enabled: Option<bool>,
}

/// Whether a party supports elicitation.
#[derive(Debug, Clone, Default)]
pub struct ElicitationCapabilities {
    pub enabled: Option<bool>,
}

/// The capabilities a client declares; experimental ones form a JSON object.
#[derive(Debug, Default)]
pub struct ClientCapabilities {
    pub roots: Option<RootsCapabilities>,
    pub sampling: Option<SamplingCapabilities>,
    pub elicitation: Option<ElicitationCapabilities>,
    pub experimental: Option<Vec<(String, Json)>>,
}

/// The capabilities a server declares; experimental ones form a JSON object.
#[derive(Debug, Default)]
pub struct ServerCapabilities {
    pub logging: Option<LoggingCapabilities>,
    pub completions: Option<CompletionsCapabilities>,
    pub prompts: Option<PromptsCapabilities>,
    pub resources: Option<ResourcesCapabilities>,
    pub tools: Option<ToolsCapabilities>,
    pub elicitation: Option<ElicitationCapabilities>,
    pub experimental: Option<Vec<(String, Json)>>,
}

/// Parameters of `initialize`: the protocol version the client asks for,
/// its capabilities and its implementation.
#[derive(Debug)]
pub struct InitializeRequest {
    pub protocol_version: String,
    pub capabilities: ClientCapabilities,
    pub client_info: Implementation,
}

/// The result of `initialize`: the protocol version the server speaks, its
/// capabilities, its implementation and optional instructions.
#[derive(Debug)]
pub struct InitializeResult {
    pub protocol_version: String,
    pub capabilities: ServerCapabilities,
    pub server_info: Implementation,
    pub instructions: Option<String>,
}

impl InitializeResult {
    /// The same result with `instructions` for the client.
    pub fn with_instructions(self, instructions: &str) -> (r: Self)
        ensures
            r == (InitializeResult { instructions: r.instructions, ..self }),
            r.instructions matches Some(i) && i@ == instructions@,
    {
        InitializeResult { instructions: Some(owned(instructions)), ..self }
    }
}

} // verus!
