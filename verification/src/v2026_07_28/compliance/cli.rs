//! The decisions of the compliance command: which subcommand was asked for,
//! and, after each outside step of a run or a pin refresh, what comes next
//! and with which exit status the command ends.

use vstd::prelude::*;
use crate::text::owned;
use super::fetch::FetchError;
use super::roundtrip::Report;

verus! {

/// What the compliance command was asked to do.
#[derive(Debug, Clone, Copy, PartialEq, Eq, Structural)]
pub enum Command {
    /// Check the pinned fixtures.
    Run,
    /// Look for a newer upstream revision and, with `write`, adopt it.
    Refresh { write: bool },
}

/// The command named by the arguments (program name excluded): `refresh`
/// as the first argument asks for a refresh, written where any argument is
/// `--write`; anything else, no argument included, asks for a run.
pub open spec fn command_of(args: Seq<Seq<char>>) -> Command {
    if args.len() > 0 && args[0] == "refresh"@ {
        Command::Refresh { write: exists|i: int| 0 <= i < args.len() && #[trigger] args[i] == "--write"@ }
    } else {
        Command::Run
    }
}

/// The views of a list of strings.
pub open spec fn views(args: Seq<String>) -> Seq<Seq<char>> {
    args.map_values(|s: String| s@)
}

/// Reads the command from the arguments.
pub fn parse_command(args: &Vec<String>) -> (r: Command)
    ensures
        r == command_of(views(args@)),
{
    let ghost v = views(args@);
    if args.len() > 0 {
        assert(v[0] == args@[0]@);
    }
    if args.len() > 0 && args[0] == owned("refresh") {
        let mut write = false;
        let mut i: usize = 0;
        while i < args.len()
            invariant
                i <= args.len(),
                v == views(args@),
                write == exists|j: int| 0 <= j < i && #[trigger] v[j] == "--write"@,
            decreases args.len() - i,
        {
            assert(v[i as int] == args@[i as int]@);
            if args[i] == owned("--write") {
                write = true;
            }
            i = i + 1;
        }
        Command::Refresh { write }
    } else {
        Command::Run
    }
}

/// The exit status of a run: 2 where the fixtures could not be fetched, 0
/// where every modeled fixture matched, 1 otherwise.
pub fn run_exit_status(outcome: &Result<Report, FetchError>) -> (r: u8)
    ensures
        match outcome {
            Err(_) => r == 2,
            Ok(report) => r == (if report.failed@.len() == 0 { 0u8 } else { 1u8 }),
        },
{
    match outcome {
        Err(_) => 2,
        Ok(report) => if report.is_clean() { 0 } else { 1 },
    }
}

/// What a refresh does next.
#[derive(Debug, Clone, PartialEq, Eq)]
pub enum RefreshAction {
    /// Check the fixtures at this candidate revision.
    Probe(String),
    /// Adopt this revision as the pin.
    Write(String),
    /// End with this exit status.
    Exit(u8),
}

/// After the last upstream revision touching the pinned tree was looked up:
/// end with 2 where the lookup failed, with 0 where it is the current pin,
/// and otherwise check the fixtures at it.
pub fn after_resolve(current_sha: &str, resolved: Result<String, FetchError>) -> (r: RefreshAction)
    ensures
        match resolved {
            Err(_) => r == RefreshAction::Exit(2),
            Ok(s) => if s@ == current_sha@ {
                r == RefreshAction::Exit(0)
            } else {
                r matches RefreshAction::Probe(p) && p@ == s@
            },
        },
{
    match resolved {
        Err(_) => RefreshAction::Exit(2),
        Ok(s) => {
            if s == owned(current_sha) {
                RefreshAction::Exit(0)
            } else {
                RefreshAction::Probe(s)
            }
        },
    }
}

/// After the fixtures were checked at the candidate revision `new_sha`:
/// end with 2 where they could not be fetched, with 1 where a modeled
/// fixture fails (the pin is never moved onto a regression), with 0 on a dry
/// run, and otherwise adopt the candidate.
pub fn after_probe(new_sha: String, probe: &Result<Report, FetchError>, write: bool) -> (r: RefreshAction)
    ensures
        match probe {
            Err(_) => r == RefreshAction::Exit(2),
            Ok(report) => if report.failed@.len() != 0 {
                r == RefreshAction::Exit(1)
            } else if !write {
                r == RefreshAction::Exit(0)
            } else {
                r == RefreshAction::Write(new_sha)
            },
        },
{
    match probe {
        Err(_) => RefreshAction::Exit(2),
        Ok(report) => {
            if !report.is_clean() {
                RefreshAction::Exit(1)
            } else if !write {
                RefreshAction::Exit(0)
            } else {
                RefreshAction::Write(new_sha)
            }
        },
    }
}

/// The exit status after the pin was rewritten: 2 where the rewrite failed,
/// 0 otherwise.
pub fn after_write(written: &Result<(), String>) -> (r: u8)
    ensures
        r == (if written is Ok { 0u8 } else { 2u8 }),
{
    match written {
        Ok(()) => 0,
        Err(_) => 2,
    }
}

} // verus!
