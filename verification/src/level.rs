//! Severities and verbosity thresholds.

use core::str::FromStr;
use vstd::prelude::*;

verus! {

/// How severe one event is. A lower ordinal is more severe.
#[derive(Clone, Copy, PartialEq, Eq, Structural, Debug, Hash)]
pub enum Level {
    Error,
    Warn,
    Info,
    Debug,
    Trace,
}

/// A verbosity threshold: the least severe level that is still let through.
/// `Off` lets nothing through, `Trace` everything.
#[derive(Clone, Copy, PartialEq, Eq, Structural, Debug, Hash)]
pub enum LevelFilter {
    Off,
    Error,
    Warn,
    Info,
    Debug,
    Trace,
}

impl Level {
    /// Position of the level on the scale that thresholds share: 1 for
    /// `Error` up to 5 for `Trace`.
    pub open spec fn ordinal(self) -> nat {
        match self {
            Level::Error => 1,
            Level::Warn => 2,
            Level::Info => 3,
            Level::Debug => 4,
            Level::Trace => 5,
        }
    }

    fn rank(self) -> (r: u8)
        ensures
            r == self.ordinal(),
    {
        match self {
            Level::Error => 1,
            Level::Warn => 2,
            Level::Info => 3,
            Level::Debug => 4,
            Level::Trace => 5,
        }
    }
}

impl LevelFilter {
    /// Position of the threshold on the scale of `Level::ordinal`, with 0
    /// for `Off`.
    pub open spec fn ordinal(self) -> nat {
        match self {
            LevelFilter::Off => 0,
            LevelFilter::Error => 1,
            LevelFilter::Warn => 2,
            LevelFilter::Info => 3,
            LevelFilter::Debug => 4,
            LevelFilter::Trace => 5,
        }
    }

    fn rank(self) -> (r: u8)
        ensures
            r == self.ordinal(),
    {
        match self {
            LevelFilter::Off => 0,
            LevelFilter::Error => 1,
            LevelFilter::Warn => 2,
            LevelFilter::Info => 3,
            LevelFilter::Debug => 4,
            LevelFilter::Trace => 5,
        }
    }

    /// A level passes a threshold when it is at least as severe.
    pub open spec fn spec_admits(self, level: Level) -> bool {
        level.ordinal() <= self.ordinal()
    }

    /// Whether an event of severity `level` passes this threshold.
    #[verifier::when_used_as_spec(spec_admits)]
    pub fn admits(self, level: Level) -> (b: bool)
        ensures
            b == self.spec_admits(level),
    {
        level.rank() <= self.rank()
    }

    /// The less restrictive of two thresholds.
    pub open spec fn spec_max(self, other: LevelFilter) -> LevelFilter {
        if self.ordinal() >= other.ordinal() {
            self
        } else {
            other
        }
    }

    /// The less restrictive of two thresholds: every level that passes
    /// either one passes the result.
    #[verifier::when_used_as_spec(spec_max)]
    pub fn max(self, other: LevelFilter) -> (m: LevelFilter)
        ensures
            m == self.spec_max(other),
    {
        if self.rank() >= other.rank() {
            self
        } else {
            other
        }
    }
}

/// `s` spells `upper` when case is ignored: the same length, and at every
/// position the letter of `upper` or that of `lower`. `upper` and `lower`
/// are one word of ASCII letters in its two cases.
pub open spec fn spells(s: Seq<char>, upper: Seq<char>, lower: Seq<char>) -> bool {
    &&& s.len() == upper.len()
    &&& forall|i: int| 0 <= i < s.len() ==> #[trigger] s[i] == upper[i] || s[i] == lower[i]
}

/// The threshold that a piece of text names, if it names one: one of the
/// six names, in any mix of upper and lower case.
pub open spec fn parse_level_filter(s: Seq<char>) -> Option<LevelFilter> {
    if spells(s, "OFF"@, "off"@) {
        Some(LevelFilter::Off)
    } else if spells(s, "ERROR"@, "error"@) {
        Some(LevelFilter::Error)
    } else if spells(s, "WARN"@, "warn"@) {
        Some(LevelFilter::Warn)
    } else if spells(s, "INFO"@, "info"@) {
        Some(LevelFilter::Info)
    } else if spells(s, "DEBUG"@, "debug"@) {
        Some(LevelFilter::Debug)
    } else if spells(s, "TRACE"@, "trace"@) {
        Some(LevelFilter::Trace)
    } else {
        None
    }
}

/// Parses a threshold with `log::LevelFilter::from_str`.
///
/// Trusted: that function compares the text with the names `OFF`, `ERROR`,
/// `WARN`, `INFO`, `DEBUG` and `TRACE` by `eq_ignore_ascii_case`, in that
/// order, and fails when none matches. The names are ASCII letters, so a
/// match is a text of the same length with the same letters in either case,
/// which is what `parse_level_filter` says.
#[verifier::external_body]
pub(crate) fn level_filter_from_str(s: &str) -> (r: Option<LevelFilter>)
    ensures
        r == parse_level_filter(s@),
{
    match log::LevelFilter::from_str(s) {
        Ok(log::LevelFilter::Off) => Some(LevelFilter::Off),
        Ok(log::LevelFilter::Error) => Some(LevelFilter::Error),
        Ok(log::LevelFilter::Warn) => Some(LevelFilter::Warn),
        Ok(log::LevelFilter::Info) => Some(LevelFilter::Info),
        Ok(log::LevelFilter::Debug) => Some(LevelFilter::Debug),
        Ok(log::LevelFilter::Trace) => Some(LevelFilter::Trace),
        Err(_) => None,
    }
}

} // verus!
