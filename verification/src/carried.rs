//! Errors of the standard library and of `serde_json` that the protocol
//! errors carry through unchanged, and their display texts.

use vstd::prelude::*;

verus! {

/// An I/O error, carried through from the standard library.
#[verifier::external_type_specification]
#[verifier::external_body]
pub struct ExIoError(std::io::Error);

/// A JSON (de)serialization error, carried through from `serde_json`.
#[verifier::external_type_specification]
#[verifier::external_body]
pub struct ExSerdeJsonError(serde_json::Error);

/// The display text of an I/O error. Calls `std::io::Error`'s `Display`;
/// nothing is claimed of the text, which may come from the operating system.
#[verifier::external_body]
pub(crate) fn io_error_text(e: &std::io::Error) -> String {
    format!("{}", e)
}

/// The display text of a `serde_json` error. Calls `serde_json::Error`'s
/// `Display`; nothing is claimed of the text.
#[verifier::external_body]
pub(crate) fn serde_json_error_text(e: &serde_json::Error) -> String {
    format!("{}", e)
}

} // verus!
