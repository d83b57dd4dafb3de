//! The wire-format compliance harness: the coverage table of upstream
//! example directories, the pinned upstream revision, the report of a run,
//! and the decisions of the compliance command.

pub mod cli;
pub mod coverage;
pub mod diff;
pub mod fetch;
pub mod roundtrip;
