//! Implementation identity and the capabilities that clients declare per
//! request and servers in their discovery result.

use vstd::prelude::*;
use crate::json::Json;
use crate::text::owned;
use crate::v2025_11_25::icons::Icon;

verus! {

/// The name and version of an MCP implementation, with optional display data.
#[derive(Debug, Clone)]
pub struct Implementation {
    pub name: String,
    pub version: String,
    pub title: Option<String>,
    pub description: Option<String>,
    pub website_url: Option<String>,
    pub icons: Option<Vec<Icon>>,
}

impl Implementation {
    /// The implementation `name` at `version`, with nothing else stated.
    pub fn new(name: &str, version: &str) -> (r: Self)
        ensures
            r.name@ == name@,
            r.version@ == version@,
            r.title is None,
            r.description is None,
            r.website_url is None,
            r.icons is None,
    {
        Implementation {
            name: owned(name),
            version: owned(version),
            title: None,
            description: None,
            website_url: None,
            icons: None,
        }
    }

    /// The same implementation with `title` set.
    pub fn with_title(self, title: &str) -> (r: Self)
        ensures
            r.name == self.name,
            r.version == self.version,
            r.title matches Some(t) && t@ == title@,
            r.description == self.description,
            r.website_url == self.website_url,
            r.icons == self.icons,
    {
        Implementation { title: Some(owned(title)), ..self }
    }

    /// The same implementation with `description` set.
    pub fn with_description(self, description: &str) -> (r: Self)
        ensures
            r.name == self.name,
            r.version == self.version,
            r.title == self.title,
            r.description matches Some(d) && d@ == description@,
            r.website_url == self.website_url,
            r.icons == self.icons,
    {
        Implementation { description: Some(owned(description)), ..self }
    }

    /// The same implementation with its website `url` set.
    pub fn with_website_url(self, url: &str) -> (r: Self)
        ensures
            r.name == self.name,
            r.version == self.version,
            r.title == self.title,
            r.description == self.description,
            r.website_url matches Some(u) && u@ == url@,
            r.icons == self.icons,
    {
        Implementation { website_url: Some(owned(url)), ..self }
    }

    /// The same implementation with `icons` set.
    pub fn with_icons(self, icons: Vec<Icon>) -> (r: Self)
        ensures
            r.name == self.name,
            r.version == self.version,
            r.title == self.title,
            r.description == self.description,
            r.website_url == self.website_url,
            r.icons == Some(icons),
    {
        Implementation { icons: Some(icons), ..self }
    }
}

/// Whether the client notifies changes of its root list.
#[derive(Debug, Clone, Default)]
pub struct RootsCapabilities {
    pub list_changed: Option<bool>,
}

/// Sampling support of the client; maps are JSON objects.
#[derive(Debug, Default)]
pub struct SamplingCapabilities {
    pub context: Option<Vec<(String, Json)>>,
    pub tools: Option<Vec<(String, Json)>>,
    pub extra: Vec<(String, Json)>,
}

/// Elicitation support of the client (form and URL modes).
#[derive(Debug, Default)]
pub struct ElicitationCapabilities {
    pub form: Option<Vec<(String, Json)>>,
    pub url: Option<Vec<(String, Json)>>,
    pub extra: Vec<(String, Json)>,
}

/// The capabilities a client declares on a request.
#[derive(Debug, Default)]
pub struct ClientCapabilities {
    pub roots: Option<RootsCapabilities>,
    pub sampling: Option<SamplingCapabilities>,
    pub elicitation: Option<ElicitationCapabilities>,
    pub experimental: Option<Vec<(String, Json)>>,
    pub extensions: Option<Vec<(String, Json)>>,
}

/// Whether the server notifies changes of its prompt list.
#[derive(Debug, Clone, Default)]
pub struct PromptsCapabilities {
    pub list_changed: Option<bool>,
}

/// Whether the server notifies changes of its tool list.
#[derive(Debug, Clone, Default)]
pub struct ToolsCapabilities {
    pub list_changed: Option<bool>,
}

/// Resource subscriptions and list-change notifications of the server.
#[derive(Debug, Clone, Default)]
pub struct ResourcesCapabilities {
    pub subscribe: Option<bool>,
    pub list_changed: Option<bool>,
}

/// Logging support of the server and the levels it accepts.
#[derive(Debug, Clone, Default)]
pub struct LoggingCapabilities {
    pub enabled: Option<bool>,
    pub levels: Option<Vec<String>>,
}

/// Completion support of the server.
#[derive(Debug, Clone, Default)]
pub struct CompletionsCapabilities {
    pub enabled: Option<bool>,
}

/// The capabilities a server declares.
#[derive(Debug, Default)]
pub struct ServerCapabilities {
    pub logging: Option<LoggingCapabilities>,
    pub completions: Option<CompletionsCapabilities>,
    pub prompts: Option<PromptsCapabilities>,
    pub resources: Option<ResourcesCapabilities>,
    pub tools: Option<ToolsCapabilities>,
    pub experimental: Option<Vec<(String, Json)>>,
    pub extensions: Option<Vec<(String, Json)>>,
}

} // verus!
