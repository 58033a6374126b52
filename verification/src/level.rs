//! The ordered severity levels consumed by loggers, and their textual names.

use vstd::prelude::*;
use crate::text::str_eq;

verus! {

/// A diagnostic severity. The variants are ordered from least to most severe;
/// `rank` gives that order a number so thresholds can be compared.
#[derive(Clone, Copy, PartialEq, Eq, Structural, Debug)]
pub enum LogLevel {
    Trace,
    Debug,
    Info,
    Warn,
    Error,
}

/// The position of a level in the severity order: `Trace` is lowest,
/// `Error` highest.
pub open spec fn spec_rank(level: LogLevel) -> nat {
    match level {
        LogLevel::Trace => 0,
        LogLevel::Debug => 1,
        LogLevel::Info => 2,
        LogLevel::Warn => 3,
        LogLevel::Error => 4,
    }
}

impl LogLevel {
    /// The numeric severity rank of this level.
    pub fn rank(self) -> (r: u8)
        ensures
            r as nat == spec_rank(self),
    {
        match self {
            LogLevel::Trace => 0,
            LogLevel::Debug => 1,
            LogLevel::Info => 2,
            LogLevel::Warn => 3,
            LogLevel::Error => 4,
        }
    }

    /// Whether this level passes a threshold: it does exactly when its rank
    /// is at least the threshold's rank.
    pub fn at_least(self, threshold: LogLevel) -> (r: bool)
        ensures
            r == (spec_rank(self) >= spec_rank(threshold)),
    {
        self.rank() >= threshold.rank()
    }
}

/// The textual name of a level, lowercase.
pub open spec fn spec_level_name(level: LogLevel) -> Seq<char> {
    match level {
        LogLevel::Trace => "trace"@,
        LogLevel::Debug => "debug"@,
        LogLevel::Info => "info"@,
        LogLevel::Warn => "warn"@,
        LogLevel::Error => "error"@,
    }
}

/// The level a textual name denotes, or `None` when the name is not one of
/// the five level names.
pub open spec fn spec_parse_log_level(s: Seq<char>) -> Option<LogLevel> {
    if s == spec_level_name(LogLevel::Trace) {
        Some(LogLevel::Trace)
    } else if s == spec_level_name(LogLevel::Debug) {
        Some(LogLevel::Debug)
    } else if s == spec_level_name(LogLevel::Info) {
        Some(LogLevel::Info)
    } else if s == spec_level_name(LogLevel::Warn) {
        Some(LogLevel::Warn)
    } else if s == spec_level_name(LogLevel::Error) {
        Some(LogLevel::Error)
    } else {
        None
    }
}

/// Parses a level name. Accepts exactly the five lowercase names.
pub fn parse_log_level(s: &str) -> (r: Option<LogLevel>)
    ensures
        r == spec_parse_log_level(s@),
{
    if str_eq(s, "trace") {
        Some(LogLevel::Trace)
    } else if str_eq(s, "debug") {
        Some(LogLevel::Debug)
    } else if str_eq(s, "info") {
        Some(LogLevel::Info)
    } else if str_eq(s, "warn") {
        Some(LogLevel::Warn)
    } else if str_eq(s, "error") {
        Some(LogLevel::Error)
    } else {
        None
    }
}

/// The textual name of a level, lowercase.
pub fn level_name(level: LogLevel) -> (r: String)
    ensures
        r@ == spec_level_name(level),
{
    match level {
        LogLevel::Trace => String::from_str("trace"),
        LogLevel::Debug => String::from_str("debug"),
        LogLevel::Info => String::from_str("info"),
        LogLevel::Warn => String::from_str("warn"),
        LogLevel::Error => String::from_str("error"),
    }
}

/// Parsing the name of a level gives that level back: the level names are
/// mutually distinct, so each name denotes exactly one level.
pub proof fn lemma_level_name_round_trip(level: LogLevel)
    ensures
        spec_parse_log_level(spec_level_name(level)) == Some(level),
{
    reveal_strlit("trace");
    reveal_strlit("debug");
    reveal_strlit("info");
    reveal_strlit("warn");
    reveal_strlit("error");
    assert("debug"@[0] == 'd' && "trace"@[0] == 't');
    assert("error"@[0] == 'e' && "debug"@[0] == 'd');
    assert("info"@.len() == 4 && "warn"@.len() == 4 && "trace"@.len() == 5 && "debug"@.len()
        == 5 && "error"@.len() == 5);
    assert("info"@[0] == 'i' && "warn"@[0] == 'w');
}

} // verus!
