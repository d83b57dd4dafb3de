//! Completion references, arguments and context.

use vstd::prelude::*;
use std::collections::HashMap;
use crate::json::Json;
use crate::text::{owned, starts_with};

verus! {

/// A reference to a resource or resource template (`type` is `ref/resource`).
#[derive(Debug, Clone)]
pub struct ResourceTemplateReference {
    pub ref_type: String,
    /// The URI or URI template of the resource.
    pub uri: String,
}

/// A reference to a prompt (`type` is `ref/prompt`).
#[derive(Debug, Clone)]
pub struct PromptReference {
    pub ref_type: String,
    /// The name of the prompt.
    pub name: String,
    pub description: Option<String>,
}

/// What a completion request completes: a resource template or a prompt.
#[derive(Debug, Clone)]
pub enum CompletionReference {
    ResourceTemplate(ResourceTemplateReference),
    Prompt(PromptReference),
}

/// Already-resolved arguments that give a completion its context.
#[derive(Debug, Clone)]
pub struct CompletionContext {
    pub arguments: Option<HashMap<String, String>>,
}

/// The argument being completed: its name and current value.
#[derive(Debug, Clone)]
pub struct CompleteArgument {
    pub name: String,
    pub value: String,
}

impl ResourceTemplateReference {
    /// A `ref/resource` reference to `uri`.
    pub fn new(uri: &str) -> (r: Self)
        ensures
            r.ref_type@ == "ref/resource"@,
            r.uri@ == uri@,
    {
        ResourceTemplateReference { ref_type: owned("ref/resource"), uri: owned(uri) }
    }
}

impl PromptReference {
    /// A `ref/prompt` reference to the prompt `name`, with no description.
    pub fn new(name: &str) -> (r: Self)
        ensures
            r.ref_type@ == "ref/prompt"@,
            r.name@ == name@,
            r.description is None,
    {
        PromptReference { ref_type: owned("ref/prompt"), name: owned(name), description: None }
    }

    /// The same reference with `description` set.
    pub fn with_description(self, description: &str) -> (r: Self)
        ensures
            r.ref_type == self.ref_type,
            r.name == self.name,
            r.description matches Some(d) && d@ == description@,
    {
        PromptReference { description: Some(owned(description)), ..self }
    }
}

impl CompletionReference {
    /// A reference to the resource template `uri`.
    pub fn resource(uri: &str) -> (r: Self)
        ensures
            r matches CompletionReference::ResourceTemplate(t) && t.ref_type@ == "ref/resource"@
                && t.uri@ == uri@,
    {
        CompletionReference::ResourceTemplate(ResourceTemplateReference::new(uri))
    }

    /// A reference to the prompt `name`.
    pub fn prompt(name: &str) -> (r: Self)
        ensures
            r matches CompletionReference::Prompt(p) && p.ref_type@ == "ref/prompt"@ && p.name@
                == name@ && p.description is None,
    {
        CompletionReference::Prompt(PromptReference::new(name))
    }
}

impl CompleteArgument {
    /// The argument `name` with its current `value`.
    pub fn new(name: &str, value: &str) -> (r: Self)
        ensures
            r.name@ == name@,
            r.value@ == value@,
    {
        CompleteArgument { name: owned(name), value: owned(value) }
    }
}

impl CompletionReference {
    /// A copy of the reference, field for field.
    pub fn copy(&self) -> (r: Self)
        ensures
            r == *self,
    {
        match self {
            CompletionReference::ResourceTemplate(t) => CompletionReference::ResourceTemplate(
                ResourceTemplateReference { ref_type: t.ref_type.clone(), uri: t.uri.clone() },
            ),
            CompletionReference::Prompt(p) => CompletionReference::Prompt(PromptReference {
                ref_type: p.ref_type.clone(),
                name: p.name.clone(),
                description: match &p.description {
                    Some(d) => Some(d.clone()),
                    None => None,
                },
            }),
        }
    }
}

impl CompleteArgument {
    /// A copy of the argument, field for field.
    pub fn copy(&self) -> (r: Self)
        ensures
            r == *self,
    {
        CompleteArgument { name: self.name.clone(), value: self.value.clone() }
    }
}

impl CompletionContext {
    /// A copy of the context: the same arguments.
    pub fn copy(&self) -> (r: Self)
        ensures
            same_context(r, *self),
    {
        match &self.arguments {
            Some(a) => CompletionContext { arguments: Some(a.clone()) },
            None => CompletionContext { arguments: None },
        }
    }
}

impl CompletionContext {
    /// A context with no arguments.
    pub fn new() -> (r: Self)
        ensures
            r.arguments is None,
    {
        CompletionContext { arguments: None }
    }

    /// The same context carrying `arguments`.
    pub fn with_arguments(self, arguments: HashMap<String, String>) -> (r: Self)
        ensures
            r.arguments == Some(arguments),
    {
        CompletionContext { arguments: Some(arguments) }
    }
}

impl Default for CompletionContext {
    fn default() -> (r: Self)
        ensures
            r.arguments is None,
    {
        CompletionContext::new()
    }
}

/// Parameters of `completion/complete`.
#[derive(Debug)]
pub struct CompleteParams {
    pub reference: CompletionReference,
    pub argument: CompleteArgument,
    pub context: Option<CompletionContext>,
    pub meta: Option<Vec<(String, Json)>>,
}

impl CompleteParams {
    /// Parameters completing `argument` of `reference`.
    pub fn new(reference: CompletionReference, argument: CompleteArgument) -> (r: Self)
        ensures
            r.reference == reference,
            r.argument == argument,
            r.context is None,
            r.meta is None,
    {
        CompleteParams { reference, argument, context: None, meta: None }
    }

    /// The same parameters with `context`.
    pub fn with_context(self, context: CompletionContext) -> (r: Self)
        ensures
            r.reference == self.reference,
            r.argument == self.argument,
            r.context == Some(context),
            r.meta == self.meta,
    {
        CompleteParams { context: Some(context), ..self }
    }

    /// The same parameters with `meta`.
    pub fn with_meta(self, meta: Vec<(String, Json)>) -> (r: Self)
        ensures
            r.reference == self.reference,
            r.argument == self.argument,
            r.context == self.context,
            r.meta == Some(meta),
    {
        CompleteParams { meta: Some(meta), ..self }
    }
}

/// A `completion/complete` request.
#[derive(Debug)]
pub struct CompleteRequest {
    pub method: String,
    pub params: CompleteParams,
}

impl CompleteRequest {
    /// The request completing `argument` of `reference`.
    pub fn new(reference: CompletionReference, argument: CompleteArgument) -> (r: Self)
        ensures
            r.method@ == "completion/complete"@,
            r.params.reference == reference,
            r.params.argument == argument,
            r.params.context is None,
            r.params.meta is None,
    {
        CompleteRequest { method: owned("completion/complete"), params: CompleteParams::new(reference, argument) }
    }

    /// The same request with `context`.
    pub fn with_context(self, context: CompletionContext) -> (r: Self)
        ensures
            r.method == self.method,
            r.params.reference == self.params.reference,
            r.params.argument == self.params.argument,
            r.params.context == Some(context),
            r.params.meta == self.params.meta,
    {
        CompleteRequest { params: self.params.with_context(context), ..self }
    }

    /// The same request with `meta`.
    pub fn with_meta(self, meta: Vec<(String, Json)>) -> (r: Self)
        ensures
            r.method == self.method,
            r.params.reference == self.params.reference,
            r.params.argument == self.params.argument,
            r.params.context == self.params.context,
            r.params.meta == Some(meta),
    {
        CompleteRequest { params: self.params.with_meta(meta), ..self }
    }
}

/// The completion values offered, with an optional total and whether more exist.
#[derive(Debug, Clone)]
pub struct CompletionResult {
    pub values: Vec<String>,
    pub total: Option<u32>,
    pub has_more: Option<bool>,
}

impl CompletionResult {
    /// The values `values`, with nothing else stated.
    pub fn new(values: Vec<String>) -> (r: Self)
        ensures
            r.values == values,
            r.total is None,
            r.has_more is None,
    {
        CompletionResult { values, total: None, has_more: None }
    }

    /// The same result with the total number of values.
    pub fn with_total(self, total: u32) -> (r: Self)
        ensures
            r.values == self.values,
            r.total == Some(total),
            r.has_more == self.has_more,
    {
        CompletionResult { total: Some(total), ..self }
    }

    /// The same result stating whether more values exist.
    pub fn with_has_more(self, has_more: bool) -> (r: Self)
        ensures
            r.values == self.values,
            r.total == self.total,
            r.has_more == Some(has_more),
    {
        CompletionResult { has_more: Some(has_more), ..self }
    }
}

/// The result of `completion/complete`.
#[derive(Debug)]
pub struct CompleteResult {
    pub completion: CompletionResult,
    pub meta: Option<Vec<(String, Json)>>,
}

impl CompleteResult {
    /// The result carrying `completion`.
    pub fn new(completion: CompletionResult) -> (r: Self)
        ensures
            r.completion == completion,
            r.meta is None,
    {
        CompleteResult { completion, meta: None }
    }

    /// The same result with `meta`.
    pub fn with_meta(self, meta: Vec<(String, Json)>) -> (r: Self)
        ensures
            r.completion == self.completion,
            r.meta == Some(meta),
    {
        CompleteResult { meta: Some(meta), ..self }
    }
}

/// What `str::to_lowercase` gives: the Unicode lowercase form of the
/// string (a mapping of its characters in order, with the final capital sigma
/// mapped by its context).
pub uninterp spec fn lowercase_text(s: Seq<char>) -> Seq<char>;

/// The lowercase form of `s`. Calls `str::to_lowercase`; claims only that
/// the result is the named mapping of `s`.
#[verifier::external_body]
fn to_lowercase(s: &str) -> (r: String)
    ensures
        r@ == lowercase_text(s@),
{
    s.to_lowercase()
}

/// The values of `values`, in order, whose lowercase forms begin with that of `current`.
pub open spec fn prefix_matches(values: Seq<String>, current: Seq<char>) -> Seq<String>
    decreases values.len(),
{
    if values.len() == 0 {
        seq![]
    } else {
        let rest = prefix_matches(values.drop_last(), current);
        if starts_with(lowercase_text(values.last()@), lowercase_text(current)) {
            rest.push(values.last())
        } else {
            rest
        }
    }
}

/// Keeps the values whose lowercase forms begin with that of `current_value`.
pub fn filter_by_prefix(values: Vec<String>, current_value: &str) -> (r: Vec<String>)
    ensures
        r@ == prefix_matches(values@, current_value@),
{
    let want = crate::text::chars_of(to_lowercase(current_value).as_str());
    let mut out: Vec<String> = Vec::new();
    let mut rest = values;
    let ghost whole = rest@;
    let n: usize = rest.len();
    let mut i: usize = 0;
    while rest.len() > 0
        invariant
            n == whole.len(),
            i + rest@.len() == n,
            rest@ == whole.subrange(i as int, n as int),
            want@ == lowercase_text(current_value@),
            out@ == prefix_matches(whole.take(i as int), current_value@),
        decreases rest@.len(),
    {
        let v = rest.remove(0);
        assert(v == whole[i as int]);
        assert(whole.take(i + 1).drop_last() =~= whole.take(i as int));
        let lv = crate::text::chars_of(to_lowercase(v.as_str()).as_str());
        if crate::text::has_prefix(&lv, &want) {
            out.push(v);
        }
        i = i + 1;
        assert(rest@ =~= whole.subrange(i as int, n as int));
    }
    assert(whole.take(n as int) =~= whole);
    out
}

/// Validation and filtering of completions.
pub trait HasCompletionHandling {
    /// Checks a completion request; accepts every request unless an
    /// implementation supplies a check.
    fn validate_request(&self, _request: &CompleteRequest) -> Result<(), String> {
        Ok(())
    }

    /// Narrows `values` to those matching the current input: unless an
    /// implementation supplies its own rule, a case-insensitive prefix match.
    fn filter_completions(&self, values: Vec<String>, current_value: &str) -> (r: Vec<String>)
        default_ensures
            r@ == prefix_matches(values@, current_value@),
    {
        filter_by_prefix(values, current_value)
    }
}

/// What a completion names: its method and the reference completed.
pub trait HasCompletionMetadata {
    /// The reference an implementation completes. A verified
    /// implementation states it; the accessor returns it.
    open spec fn reference_spec(&self) -> CompletionReference {
        arbitrary()
    }

    /// The completion method name.
    fn method(&self) -> &str;

    /// The prompt or resource being completed.
    fn reference(&self) -> (r: &CompletionReference)
        ensures
            *r == self.reference_spec();
}

/// The argument being completed and its context.
pub trait HasCompletionContext {
    /// The argument an implementation completes. A verified
    /// implementation states it; the accessor returns it.
    open spec fn argument_spec(&self) -> CompleteArgument {
        arbitrary()
    }

    /// The context an implementation completes in, where it has one. A verified
    /// implementation states it; the accessor returns it.
    open spec fn context_spec(&self) -> Option<CompletionContext> {
        arbitrary()
    }

    /// The argument being completed.
    fn argument(&self) -> (r: &CompleteArgument)
        ensures
            *r == self.argument_spec();

    /// The completion context, where there is one.
    fn context(&self) -> (r: Option<&CompletionContext>)
        ensures
            match r {
                Some(c) => self.context_spec() == Some(*c),
                None => self.context_spec() is None,
            };
}

/// Whether `a` carries the same arguments as `b` (a context with no
/// arguments matches only such a context).
pub open spec fn same_context(a: CompletionContext, b: CompletionContext) -> bool {
    match (a.arguments, b.arguments) {
        (Some(x), Some(y)) => x@ == y@,
        (None, None) => true,
        _ => false,
    }
}

/// A complete completion definition: what it names, its argument and
/// context, and its handling. Every type with the three parts has it.
pub trait CompletionDefinition: HasCompletionMetadata + HasCompletionContext + HasCompletionHandling {
    /// The `completion/complete` request the definition describes: its
    /// reference and argument, and its context where it has one.
    fn to_complete_request(&self) -> (r: CompleteRequest)
        ensures
            r.method@ == "completion/complete"@,
            r.params.reference == self.reference_spec(),
            r.params.argument == self.argument_spec(),
            match (r.params.context, self.context_spec()) {
                (Some(a), Some(b)) => same_context(a, b),
                (None, None) => true,
                _ => false,
            },
            r.params.meta is None,
    {
        let request = CompleteRequest::new(self.reference().copy(), self.argument().copy());
        match self.context() {
            Some(context) => request.with_context(context.copy()),
            None => request,
        }
    }
}

impl<T: HasCompletionMetadata + HasCompletionContext + HasCompletionHandling> CompletionDefinition for T {
}

} // verus!
