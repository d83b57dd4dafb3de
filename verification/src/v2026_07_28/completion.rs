//! Completion references, arguments, context, the `completion/complete`
//! request and the completion it is answered with.

use vstd::prelude::*;
use std::collections::HashMap;
use crate::text::owned;
use crate::json::{Json, member, get_member};
use crate::v2026_07_28::meta::RequestMetaObject;

verus! {

/// A reference to a resource or resource template (`type` is `ref/resource`).
#[derive(Debug, Clone)]
pub struct ResourceTemplateReference {
    pub ref_type: String,
    /// The URI or URI template of the resource.
    pub uri: String,
}

/// A reference to a prompt (`type` is `ref/prompt`).
#[derive(Debug, Clone)]
pub struct PromptReference {
    pub ref_type: String,
    pub name: String,
    pub title: Option<String>,
}

/// What a completion request completes: a resource template or a prompt.
#[derive(Debug, Clone)]
pub enum CompletionReference {
    ResourceTemplate(ResourceTemplateReference),
    Prompt(PromptReference),
}

/// Already-resolved arguments that give a completion its context.
#[derive(Debug, Clone)]
pub struct CompletionContext {
    pub arguments: Option<HashMap<String, String>>,
}

/// The argument being completed: its name and current value.
#[derive(Debug, Clone)]
pub struct CompleteArgument {
    pub name: String,
    pub value: String,
}

/// Parameters of a `completion/complete` request.
#[derive(Debug)]
pub struct CompleteRequestParams {
    pub reference: CompletionReference,
    pub argument: CompleteArgument,
    pub context: Option<CompletionContext>,
    pub meta: RequestMetaObject,
}

impl CompleteRequestParams {
    /// Parameters completing `argument` of `reference`, without context.
    pub fn new(reference: CompletionReference, argument: CompleteArgument, meta: RequestMetaObject) -> (r: Self)
        ensures
            r.reference == reference,
            r.argument == argument,
            r.context is None,
            r.meta == meta,
    {
        CompleteRequestParams { reference, argument, context: None, meta }
    }

    /// The same parameters with `context` set.
    pub fn with_context(self, context: CompletionContext) -> (r: Self)
        ensures
            r.reference == self.reference,
            r.argument == self.argument,
            r.context == Some(context),
            r.meta == self.meta,
    {
        CompleteRequestParams { context: Some(context), ..self }
    }

    /// The same parameters with `meta` in place of their `_meta`.
    pub fn with_meta(self, meta: RequestMetaObject) -> (r: Self)
        ensures
            r.reference == self.reference,
            r.argument == self.argument,
            r.context == self.context,
            r.meta == meta,
    {
        CompleteRequestParams { meta, ..self }
    }
}

/// A `completion/complete` request.
#[derive(Debug)]
pub struct CompleteRequest {
    pub method: String,
    pub params: CompleteRequestParams,
}

impl CompleteRequest {
    /// A request completing `argument` of `reference`, carrying `meta`.
    pub fn new(reference: CompletionReference, argument: CompleteArgument, meta: RequestMetaObject) -> (r: Self)
        ensures
            r.method@ == "completion/complete"@,
            r.params.reference == reference,
            r.params.argument == argument,
            r.params.context is None,
            r.params.meta == meta,
    {
        CompleteRequest {
            method: owned("completion/complete"),
            params: CompleteRequestParams::new(reference, argument, meta),
        }
    }

    /// The same request with `params` as its parameters.
    pub fn with_params(self, params: CompleteRequestParams) -> (r: Self)
        ensures
            r.method == self.method,
            r.params == params,
    {
        CompleteRequest { method: self.method, params }
    }

    /// The same request with `context` set.
    pub fn with_context(self, context: CompletionContext) -> (r: Self)
        ensures
            r.method == self.method,
            r.params.reference == self.params.reference,
            r.params.argument == self.params.argument,
            r.params.context == Some(context),
            r.params.meta == self.params.meta,
    {
        CompleteRequest { method: self.method, params: self.params.with_context(context) }
    }

    /// The same request with `meta` in place of its `_meta`.
    pub fn with_meta(self, meta: RequestMetaObject) -> (r: Self)
        ensures
            r.method == self.method,
            r.params.reference == self.params.reference,
            r.params.argument == self.params.argument,
            r.params.context == self.params.context,
            r.params.meta == meta,
    {
        CompleteRequest { method: self.method, params: self.params.with_meta(meta) }
    }
}

/// The completions offered: the values (never truncated here), optionally
/// the total number of possible completions (held as the IEEE-754 bit
/// pattern of its `f64` value) and whether more are available.
#[derive(Debug, Clone)]
pub struct CompletionResult {
    pub values: Vec<String>,
    pub total: Option<u64>,
    pub has_more: Option<bool>,
}

impl CompletionResult {
    /// The completions `values`, all of them, with nothing else stated.
    pub fn new(values: Vec<String>) -> (r: Self)
        ensures
            r.values == values,
            r.total is None,
            r.has_more is None,
    {
        CompletionResult { values, total: None, has_more: None }
    }

    /// The same completions with the total whose bit pattern is `total`.
    pub fn with_total(self, total: u64) -> (r: Self)
        ensures
            r.values == self.values,
            r.total == Some(total),
            r.has_more == self.has_more,
    {
        CompletionResult { total: Some(total), ..self }
    }

    /// The same completions, stating whether more are available.
    pub fn with_has_more(self, has_more: bool) -> (r: Self)
        ensures
            r.values == self.values,
            r.total == self.total,
            r.has_more == Some(has_more),
    {
        CompletionResult { has_more: Some(has_more), ..self }
    }
}

impl ResourceTemplateReference {
    /// A `ref/resource` reference to `uri`.
    pub fn new(uri: &str) -> (r: Self)
        ensures
            r.ref_type@ == "ref/resource"@,
            r.uri@ == uri@,
    {
        ResourceTemplateReference { ref_type: owned("ref/resource"), uri: owned(uri) }
    }
}

impl PromptReference {
    /// A `ref/prompt` reference to the prompt `name`, untitled.
    pub fn new(name: &str) -> (r: Self)
        ensures
            r.ref_type@ == "ref/prompt"@,
            r.name@ == name@,
            r.title is None,
    {
        PromptReference { ref_type: owned("ref/prompt"), name: owned(name), title: None }
    }

    /// The same reference with `title` set.
    pub fn with_title(self, title: &str) -> (r: Self)
        ensures
            r.ref_type == self.ref_type,
            r.name == self.name,
            r.title matches Some(t) && t@ == title@,
    {
        PromptReference { title: Some(owned(title)), ..self }
    }
}

impl CompletionReference {
    /// A reference to the resource template `uri`.
    pub fn resource(uri: &str) -> (r: Self)
        ensures
            r matches CompletionReference::ResourceTemplate(t) && t.ref_type@ == "ref/resource"@
                && t.uri@ == uri@,
    {
        CompletionReference::ResourceTemplate(ResourceTemplateReference::new(uri))
    }

    /// A reference to the prompt `name`.
    pub fn prompt(name: &str) -> (r: Self)
        ensures
            r matches CompletionReference::Prompt(p) && p.ref_type@ == "ref/prompt"@ && p.name@
                == name@ && p.title is None,
    {
        CompletionReference::Prompt(PromptReference::new(name))
    }
}

impl CompleteArgument {
    /// The argument `name` with its current `value`.
    pub fn new(name: &str, value: &str) -> (r: Self)
        ensures
            r.name@ == name@,
            r.value@ == value@,
    {
        CompleteArgument { name: owned(name), value: owned(value) }
    }
}

impl CompletionContext {
    /// A context with no arguments.
    pub fn new() -> (r: Self)
        ensures
            r.arguments is None,
    {
        CompletionContext { arguments: None }
    }

    /// The same context carrying `arguments`.
    pub fn with_arguments(self, arguments: HashMap<String, String>) -> (r: Self)
        ensures
            r.arguments == Some(arguments),
    {
        CompletionContext { arguments: Some(arguments) }
    }
}

impl Default for CompletionContext {
    fn default() -> (r: Self)
        ensures
            r.arguments is None,
    {
        CompletionContext::new()
    }
}

/// Which reference a completion reference is read as, chosen by its `type`.
#[derive(Debug, Clone, Copy, PartialEq, Eq, Structural)]
pub enum CompletionReferenceKind {
    ResourceTemplate,
    Prompt,
}

/// The reference kind named by the `type` of `value`: `ref/resource` or
/// `ref/prompt`; anything else, a missing `type` included, names none.
pub open spec fn completion_reference_kind_of(value: Json) -> Option<CompletionReferenceKind> {
    match member(value, "type"@) {
        Some(Json::String(t)) => if t@ == "ref/resource"@ {
            Some(CompletionReferenceKind::ResourceTemplate)
        } else if t@ == "ref/prompt"@ {
            Some(CompletionReferenceKind::Prompt)
        } else {
            None
        },
        _ => None,
    }
}

/// Chooses the reference a completion reference is read as from its
/// `type` discriminator (the decoder rejects a value that names none).
pub fn completion_reference_kind(value: &Json) -> (r: Option<CompletionReferenceKind>)
    ensures
        r == completion_reference_kind_of(*value),
{
    match get_member(value, &owned("type")) {
        Some(Json::String(t)) => {
            if *t == owned("ref/resource") {
                Some(CompletionReferenceKind::ResourceTemplate)
            } else if *t == owned("ref/prompt") {
                Some(CompletionReferenceKind::Prompt)
            } else {
                None
            }
        },
        _ => None,
    }
}

} // verus!
