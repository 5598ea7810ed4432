//! Event severity levels and threshold filtering.

use vstd::prelude::*;

verus! {

/// Severity of a trace event, ordered from least to most severe:
/// `Trace < Debug < Info < Warn < Error`.
#[derive(Clone, Copy, PartialEq, Eq, Structural, Debug)]
pub enum Level {
    Trace,
    Debug,
    Info,
    Warn,
    Error,
}

impl Level {
    /// Numeric rank of a level in the severity ordering.
    pub open spec fn rank(self) -> int {
        match self {
            Level::Trace => 0,
            Level::Debug => 1,
            Level::Info => 2,
            Level::Warn => 3,
            Level::Error => 4,
        }
    }

    /// An event at level `self` survives a configured threshold exactly
    /// when its severity is not strictly below the threshold; events at
    /// the threshold level itself are kept.
    pub fn passes(self, threshold: Level) -> (r: bool)
        ensures
            r == (self.rank() >= threshold.rank()),
    {
        self.rank_exec() >= threshold.rank_exec()
    }

    /// The conventional upper-case name of a level.
    pub open spec fn spec_name(self) -> Seq<char> {
        match self {
            Level::Trace => "TRACE"@,
            Level::Debug => "DEBUG"@,
            Level::Info => "INFO"@,
            Level::Warn => "WARN"@,
            Level::Error => "ERROR"@,
        }
    }

    /// The conventional upper-case name of a level.
    pub fn name(self) -> (r: &'static str)
        ensures
            r@ == self.spec_name(),
    {
        match self {
            Level::Trace => "TRACE",
            Level::Debug => "DEBUG",
            Level::Info => "INFO",
            Level::Warn => "WARN",
            Level::Error => "ERROR",
        }
    }

    /// Executable form of `rank`.
    pub fn rank_exec(self) -> (r: u8)
        ensures
            r as int == self.rank(),
    {
        match self {
            Level::Trace => 0,
            Level::Debug => 1,
            Level::Info => 2,
            Level::Warn => 3,
            Level::Error => 4,
        }
    }
}

} // verus!
