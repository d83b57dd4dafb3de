//! The server-to-client requests of a multi-round-trip exchange: which kind
//! of request a payload is read as, chosen by its `method`.

use vstd::prelude::*;
use crate::text::owned;
use crate::json::{Json, member, get_member};

verus! {

/// The kind of request a server may ask a client to fulfil before a call is
/// retried: a sampling request, a roots listing or an elicitation.
#[derive(Debug, Clone, Copy, PartialEq, Eq, Structural)]
pub enum InputRequestKind {
    CreateMessage,
    ListRoots,
    Elicit,
}

/// Why a payload names no input request kind.
#[derive(Debug, Clone, PartialEq, Eq)]
pub enum InputRequestKindError {
    /// The payload has no string `method`.
    MissingMethod,
    /// The payload's `method` is this, which names no kind.
    UnknownMethod(String),
}

/// The kind of input request named by the `method` of `value`:
/// `sampling/createMessage`, `roots/list` or `elicitation/create`.
pub open spec fn input_request_kind_of(value: Json) -> Result<InputRequestKind, InputRequestKindError> {
    match member(value, "method"@) {
        Some(Json::String(m)) => if m@ == "sampling/createMessage"@ {
            Ok(InputRequestKind::CreateMessage)
        } else if m@ == "roots/list"@ {
            Ok(InputRequestKind::ListRoots)
        } else if m@ == "elicitation/create"@ {
            Ok(InputRequestKind::Elicit)
        } else {
            Err(InputRequestKindError::UnknownMethod(m))
        },
        _ => Err(InputRequestKindError::MissingMethod),
    }
}

/// Chooses the kind of request an input request payload is read as from its
/// `method` discriminator; a payload without a string `method`, or with any
/// other method, is rejected.
pub fn input_request_kind(value: &Json) -> (r: Result<InputRequestKind, InputRequestKindError>)
    ensures
        match (r, input_request_kind_of(*value)) {
            (Ok(a), Ok(b)) => a == b,
            (Err(InputRequestKindError::MissingMethod), Err(InputRequestKindError::MissingMethod)) => true,
            (Err(InputRequestKindError::UnknownMethod(a)), Err(InputRequestKindError::UnknownMethod(b))) => a@ == b@,
            _ => false,
        },
{
    match get_member(value, &owned("method")) {
        Some(Json::String(m)) => {
            if *m == owned("sampling/createMessage") {
                Ok(InputRequestKind::CreateMessage)
            } else if *m == owned("roots/list") {
                Ok(InputRequestKind::ListRoots)
            } else if *m == owned("elicitation/create") {
                Ok(InputRequestKind::Elicit)
            } else {
                Err(InputRequestKindError::UnknownMethod(m.clone()))
            }
        },
        _ => Err(InputRequestKindError::MissingMethod),
    }
}

} // verus!
