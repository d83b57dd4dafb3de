//! Roles, model hints, model preferences and tool choice of sampling
//! requests, and the loose sampling request and result.

use vstd::prelude::*;
use crate::json::Json;
use crate::text::owned;

verus! {

/// The author of a sampling message.
#[derive(Debug, Clone, Copy, PartialEq, Eq)]
pub enum Role {
    User,
    Assistant,
}

/// A hint at a model, by any identifier.
#[derive(Debug, Clone)]
pub struct ModelHint {
    pub name: Option<String>,
}

impl ModelHint {
    /// A hint at the model `name`.
    pub fn new(name: &str) -> (r: Self)
        ensures
            r.name matches Some(n) && n@ == name@,
    {
        ModelHint { name: Some(owned(name)) }
    }
}

/// How the model may use tools.
#[derive(Debug, Clone, Copy, PartialEq, Eq, Structural)]
pub enum ToolChoiceMode {
    /// The model decides.
    Auto,
    /// The model must not use a tool (wire value `none`).
    NoTools,
    /// The model must use at least one tool (wire value `required`; `any`
    /// is accepted for it).
    Required,
}

/// The tool choice of a sampling request: a mode and, with `Required`,
/// optionally the one tool to use.
#[derive(Debug, Clone)]
pub struct ToolChoice {
    pub mode: ToolChoiceMode,
    pub name: Option<String>,
}

impl ToolChoice {
    /// The model decides whether to use tools.
    pub fn auto() -> (r: Self)
        ensures
            r.mode == ToolChoiceMode::Auto,
            r.name is None,
    {
        ToolChoice { mode: ToolChoiceMode::Auto, name: None }
    }

    /// The model must not use tools.
    pub fn none() -> (r: Self)
        ensures
            r.mode == ToolChoiceMode::NoTools,
            r.name is None,
    {
        ToolChoice { mode: ToolChoiceMode::NoTools, name: None }
    }

    /// The model must use at least one tool.
    pub fn required() -> (r: Self)
        ensures
            r.mode == ToolChoiceMode::Required,
            r.name is None,
    {
        ToolChoice { mode: ToolChoiceMode::Required, name: None }
    }

    /// The older name of [`ToolChoice::required`].
    pub fn any() -> (r: Self)
        ensures
            r.mode == ToolChoiceMode::Required,
            r.name is None,
    {
        ToolChoice::required()
    }

    /// The model must use the tool `name`.
    pub fn specific(name: &str) -> (r: Self)
        ensures
            r.mode == ToolChoiceMode::Required,
            r.name matches Some(n) && n@ == name@,
    {
        ToolChoice { mode: ToolChoiceMode::Required, name: Some(owned(name)) }
    }
}

/// A sampling request in its loose form: a method and any parameters.
#[derive(Debug)]
pub struct SamplingRequest {
    pub method: String,
    pub params: Option<Json>,
}

/// The loose answer to a sampling request.
#[derive(Debug)]
pub struct SamplingResult {
    pub result: Json,
}

impl SamplingResult {
    /// The answer `result`.
    pub fn new(result: Json) -> (r: Self)
        ensures
            r.result == result,
    {
        SamplingResult { result }
    }
}

/// Which models a sampling request prefers, and how it weighs cost, speed
/// and intelligence. Each weight, a fraction between 0 and 1, is held as the
/// IEEE-754 bit pattern of its `f64` value.
#[derive(Debug, Clone)]
pub struct ModelPreferences {
    pub hints: Option<Vec<ModelHint>>,
    pub cost_priority: Option<u64>,
    pub speed_priority: Option<u64>,
    pub intelligence_priority: Option<u64>,
}

impl ModelPreferences {
    /// Preferences with nothing stated.
    pub fn new() -> (r: Self)
        ensures
            r.hints is None,
            r.cost_priority is None,
            r.speed_priority is None,
            r.intelligence_priority is None,
    {
        ModelPreferences { hints: None, cost_priority: None, speed_priority: None, intelligence_priority: None }
    }

    /// The same preferences hinting at `hints`.
    pub fn with_hints(self, hints: Vec<ModelHint>) -> (r: Self)
        ensures
            r.hints == Some(hints),
            r.cost_priority == self.cost_priority,
            r.speed_priority == self.speed_priority,
            r.intelligence_priority == self.intelligence_priority,
    {
        ModelPreferences { hints: Some(hints), ..self }
    }

    /// The same preferences weighing cost by the fraction whose bit pattern is `priority`.
    pub fn with_cost_priority(self, priority: u64) -> (r: Self)
        ensures
            r.hints == self.hints,
            r.cost_priority == Some(priority),
            r.speed_priority == self.speed_priority,
            r.intelligence_priority == self.intelligence_priority,
    {
        ModelPreferences { cost_priority: Some(priority), ..self }
    }

    /// The same preferences weighing speed by the fraction whose bit pattern is `priority`.
    pub fn with_speed_priority(self, priority: u64) -> (r: Self)
        ensures
            r.hints == self.hints,
            r.cost_priority == self.cost_priority,
            r.speed_priority == Some(priority),
            r.intelligence_priority == self.intelligence_priority,
    {
        ModelPreferences { speed_priority: Some(priority), ..self }
    }

    /// The same preferences weighing intelligence by the fraction whose bit pattern is `priority`.
    pub fn with_intelligence_priority(self, priority: u64) -> (r: Self)
        ensures
            r.hints == self.hints,
            r.cost_priority == self.cost_priority,
            r.speed_priority == self.speed_priority,
            r.intelligence_priority == Some(priority),
    {
        ModelPreferences { intelligence_priority: Some(priority), ..self }
    }
}

impl Default for ModelPreferences {
    fn default() -> (r: Self)
        ensures
            r.hints is None,
            r.cost_priority is None,
            r.speed_priority is None,
            r.intelligence_priority is None,
    {
        ModelPreferences::new()
    }
}

} // verus!
