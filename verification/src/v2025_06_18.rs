//! The protocol revision of 2025-06-18: completion requests and filtering,
//! elicitation forms and answers, implementation info and capabilities,
//! logging levels and notifications, prompts, sampling preferences and JSON
//! Schema definitions.

pub mod completion;
pub mod elicitation;
pub mod initialize;
pub mod logging;
pub mod notifications;
pub mod prompts;
pub mod sampling;
pub mod schema;
