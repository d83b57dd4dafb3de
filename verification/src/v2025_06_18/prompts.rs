//! Prompts: their descriptors, arguments and annotations, message roles, and
//! the `prompts/get` request.

use std::collections::HashMap;
use vstd::prelude::*;
use crate::json::Json;
use crate::text::owned;

verus! {

/// Annotations of a prompt: its display title.
#[derive(Debug, Clone)]
pub struct PromptAnnotations {
    pub title: Option<String>,
}

impl PromptAnnotations {
    /// Annotations with no title.
    pub fn new() -> (r: Self)
        ensures
            r.title is None,
    {
        PromptAnnotations { title: None }
    }

    /// The same annotations with `title` set.
    pub fn with_title(self, title: &str) -> (r: Self)
        ensures
            r.title matches Some(t) && t@ == title@,
    {
        PromptAnnotations { title: Some(owned(title)) }
    }
}

impl Default for PromptAnnotations {
    fn default() -> (r: Self)
        ensures
            r.title is None,
    {
        PromptAnnotations::new()
    }
}

/// The sender or recipient of a message in a conversation.
#[derive(Debug, Clone, Copy, PartialEq, Eq)]
pub enum Role {
    User,
    Assistant,
}

/// An argument a prompt accepts.
#[derive(Debug, Clone)]
pub struct PromptArgument {
    pub name: String,
    pub title: Option<String>,
    pub description: Option<String>,
    pub required: Option<bool>,
}

impl PromptArgument {
    /// The argument `name`, with nothing else stated.
    pub fn new(name: &str) -> (r: Self)
        ensures
            r.name@ == name@,
            r.title is None,
            r.description is None,
            r.required is None,
    {
        PromptArgument { name: owned(name), title: None, description: None, required: None }
    }

    /// The same argument with `title` set.
    pub fn with_title(self, title: &str) -> (r: Self)
        ensures
            r.name == self.name,
            r.title matches Some(t) && t@ == title@,
            r.description == self.description,
            r.required == self.required,
    {
        PromptArgument { title: Some(owned(title)), ..self }
    }

    /// The same argument with `description` set.
    pub fn with_description(self, description: &str) -> (r: Self)
        ensures
            r.name == self.name,
            r.title == self.title,
            r.description matches Some(d) && d@ == description@,
            r.required == self.required,
    {
        PromptArgument { description: Some(owned(description)), ..self }
    }

    /// The same argument, marked required.
    pub fn required(self) -> (r: Self)
        ensures
            r.name == self.name,
            r.title == self.title,
            r.description == self.description,
            r.required == Some(true),
    {
        PromptArgument { required: Some(true), ..self }
    }

    /// The same argument, marked optional.
    pub fn optional(self) -> (r: Self)
        ensures
            r.name == self.name,
            r.title == self.title,
            r.description == self.description,
            r.required == Some(false),
    {
        PromptArgument { required: Some(false), ..self }
    }
}

/// A prompt a server offers.
#[derive(Debug)]
pub struct Prompt {
    pub name: String,
    pub title: Option<String>,
    pub description: Option<String>,
    pub arguments: Option<Vec<PromptArgument>>,
    pub meta: Option<Vec<(String, Json)>>,
}

impl Prompt {
    /// The prompt `name`, with nothing else stated.
    pub fn new(name: &str) -> (r: Self)
        ensures
            r.name@ == name@,
            r.title is None,
            r.description is None,
            r.arguments is None,
            r.meta is None,
    {
        Prompt { name: owned(name), title: None, description: None, arguments: None, meta: None }
    }

    /// The same prompt with `title` set.
    pub fn with_title(self, title: &str) -> (r: Self)
        ensures
            r.name == self.name,
            r.title matches Some(t) && t@ == title@,
            r.description == self.description,
            r.arguments == self.arguments,
            r.meta == self.meta,
    {
        Prompt { title: Some(owned(title)), ..self }
    }

    /// The same prompt with `description` set.
    pub fn with_description(self, description: &str) -> (r: Self)
        ensures
            r.name == self.name,
            r.title == self.title,
            r.description matches Some(d) && d@ == description@,
            r.arguments == self.arguments,
            r.meta == self.meta,
    {
        Prompt { description: Some(owned(description)), ..self }
    }

    /// The same prompt accepting `arguments`.
    pub fn with_arguments(self, arguments: Vec<PromptArgument>) -> (r: Self)
        ensures
            r.name == self.name,
            r.title == self.title,
            r.description == self.description,
            r.arguments == Some(arguments),
            r.meta == self.meta,
    {
        Prompt { arguments: Some(arguments), ..self }
    }

    /// The same prompt with `meta` as its `_meta`.
    pub fn with_meta(self, meta: Vec<(String, Json)>) -> (r: Self)
        ensures
            r.name == self.name,
            r.title == self.title,
            r.description == self.description,
            r.arguments == self.arguments,
            r.meta == Some(meta),
    {
        Prompt { meta: Some(meta), ..self }
    }
}

/// Parameters of a `prompts/get` request: the prompt's name and the values
/// of its arguments, each a string.
#[derive(Debug)]
pub struct GetPromptParams {
    pub name: String,
    pub arguments: Option<HashMap<String, String>>,
    pub meta: Option<Vec<(String, Json)>>,
}

impl GetPromptParams {
    /// Parameters asking for the prompt `name`.
    pub fn new(name: &str) -> (r: Self)
        ensures
            r.name@ == name@,
            r.arguments is None,
            r.meta is None,
    {
        GetPromptParams { name: owned(name), arguments: None, meta: None }
    }

    /// The same parameters with `arguments` as the argument values.
    pub fn with_arguments(self, arguments: HashMap<String, String>) -> (r: Self)
        ensures
            r.name == self.name,
            r.arguments == Some(arguments),
            r.meta == self.meta,
    {
        GetPromptParams { arguments: Some(arguments), ..self }
    }

    /// The same parameters with `meta` as their `_meta`.
    pub fn with_meta(self, meta: Vec<(String, Json)>) -> (r: Self)
        ensures
            r.name == self.name,
            r.arguments == self.arguments,
            r.meta == Some(meta),
    {
        GetPromptParams { meta: Some(meta), ..self }
    }
}

/// A `prompts/get` request.
#[derive(Debug)]
pub struct GetPromptRequest {
    pub method: String,
    pub params: GetPromptParams,
}

impl GetPromptRequest {
    /// A `prompts/get` request for the prompt `name`.
    pub fn new(name: &str) -> (r: Self)
        ensures
            r.method@ == "prompts/get"@,
            r.params.name@ == name@,
            r.params.arguments is None,
            r.params.meta is None,
    {
        GetPromptRequest { method: owned("prompts/get"), params: GetPromptParams::new(name) }
    }

    /// The same request with `arguments` as the argument values.
    pub fn with_arguments(self, arguments: HashMap<String, String>) -> (r: Self)
        ensures
            r.method == self.method,
            r.params.name == self.params.name,
            r.params.arguments == Some(arguments),
            r.params.meta == self.params.meta,
    {
        GetPromptRequest { method: self.method, params: self.params.with_arguments(arguments) }
    }

    /// The same request with `meta` as the `_meta` of its parameters.
    pub fn with_meta(self, meta: Vec<(String, Json)>) -> (r: Self)
        ensures
            r.method == self.method,
            r.params.name == self.params.name,
            r.params.arguments == self.params.arguments,
            r.params.meta == Some(meta),
    {
        GetPromptRequest { method: self.method, params: self.params.with_meta(meta) }
    }
}

} // verus!
