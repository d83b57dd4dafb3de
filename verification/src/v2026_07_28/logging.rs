//! Logging levels (the syslog severities of RFC 5424) and their order.

use vstd::prelude::*;

verus! {

/// A logging level, from least to most severe.
#[derive(Debug, Clone, Copy, PartialEq, Eq, Structural)]
pub enum LoggingLevel {
    Debug,
    Info,
    Notice,
    Warning,
    Error,
    Critical,
    Alert,
    Emergency,
}

/// The severity rank of a level: `Debug` is 0, `Emergency` is 7.
pub open spec fn level_rank(l: LoggingLevel) -> int {
    match l {
        LoggingLevel::Debug => 0,
        LoggingLevel::Info => 1,
        LoggingLevel::Notice => 2,
        LoggingLevel::Warning => 3,
        LoggingLevel::Error => 4,
        LoggingLevel::Critical => 5,
        LoggingLevel::Alert => 6,
        LoggingLevel::Emergency => 7,
    }
}

impl LoggingLevel {
    /// The severity rank of the level (0 for `Debug` up to 7 for `Emergency`).
    pub fn priority(&self) -> (r: u8)
        ensures
            r == level_rank(*self),
    {
        match self {
            LoggingLevel::Debug => 0,
            LoggingLevel::Info => 1,
            LoggingLevel::Notice => 2,
            LoggingLevel::Warning => 3,
            LoggingLevel::Error => 4,
            LoggingLevel::Critical => 5,
            LoggingLevel::Alert => 6,
            LoggingLevel::Emergency => 7,
        }
    }

    /// Whether a message at this level passes the `threshold`: it is at
    /// least as severe.
    pub fn should_log(&self, threshold: LoggingLevel) -> (r: bool)
        ensures
            r == (level_rank(*self) >= level_rank(threshold)),
    {
        self.priority() >= threshold.priority()
    }
}

/// Distinct levels have distinct ranks, so the ranks order the levels strictly.
pub proof fn lemma_level_rank_injective(a: LoggingLevel, b: LoggingLevel)
    ensures
        level_rank(a) == level_rank(b) <==> a == b,
        0 <= level_rank(a) <= 7,
{
}

/// The threshold test is a total order on levels: every level passes
/// itself, passing is transitive, of two levels one passes the other and
/// two that pass each other are the same; everything passes `Debug` and
/// `Emergency` passes everything.
pub proof fn lemma_should_log_order(a: LoggingLevel, b: LoggingLevel, c: LoggingLevel)
    ensures
        level_rank(a) >= level_rank(a),
        level_rank(a) >= level_rank(b) && level_rank(b) >= level_rank(c) ==> level_rank(a)
            >= level_rank(c),
        level_rank(a) >= level_rank(b) || level_rank(b) >= level_rank(a),
        level_rank(a) >= level_rank(b) && level_rank(b) >= level_rank(a) ==> a == b,
        level_rank(a) >= level_rank(LoggingLevel::Debug),
        level_rank(LoggingLevel::Emergency) >= level_rank(a),
{
}

} // verus!
