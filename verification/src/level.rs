//! Severity levels and their two projections: label and colour for lines
//! rendered on a terminal, numeric code for records handed to a log receiver.

use crate::text::{all_upper, occurs_at};
use std::cmp::Ordering;
use vstd::prelude::*;
use vstd::std_specs::cmp::PartialOrdSpec;

verus! {

/// Severity of a log line, from least to most severe.
#[derive(Clone, Copy, Debug, PartialEq, Eq, Structural, Ord, Hash)]
pub enum LogLevel {
    Debug,
    Info,
    Warn,
    Error,
}

impl LogLevel {
    /// Numeric code under which a level is forwarded.
    pub open spec fn code(self) -> u32 {
        match self {
            LogLevel::Debug => 0,
            LogLevel::Info => 1,
            LogLevel::Warn => 2,
            LogLevel::Error => 3,
        }
    }

    /// Upper-case label shown between brackets in a rendered line.
    pub open spec fn label(self) -> Seq<char> {
        match self {
            LogLevel::Debug => "DEBUG"@,
            LogLevel::Info => "INFO"@,
            LogLevel::Warn => "WARN"@,
            LogLevel::Error => "ERROR"@,
        }
    }

    /// ANSI escape sequence that switches the terminal to the level's colour:
    /// cyan, green, yellow and red.
    pub open spec fn color(self) -> Seq<char> {
        match self {
            LogLevel::Debug => "\x1b[36m"@,
            LogLevel::Info => "\x1b[32m"@,
            LogLevel::Warn => "\x1b[33m"@,
            LogLevel::Error => "\x1b[31m"@,
        }
    }

    /// The label as text.
    pub fn as_str(&self) -> (label: &'static str)
        ensures
            label@ == self.label(),
    {
        match self {
            LogLevel::Debug => "DEBUG",
            LogLevel::Info => "INFO",
            LogLevel::Warn => "WARN",
            LogLevel::Error => "ERROR",
        }
    }

    /// The colour escape sequence as text.
    pub fn ansi_color(&self) -> (color: &'static str)
        ensures
            color@ == self.color(),
    {
        match self {
            LogLevel::Debug => "\x1b[36m",
            LogLevel::Info => "\x1b[32m",
            LogLevel::Warn => "\x1b[33m",
            LogLevel::Error => "\x1b[31m",
        }
    }
}

/// Numeric code of a level: 0 for `Debug` up to 3 for `Error`.
pub fn level_code(level: &LogLevel) -> (code: u32)
    ensures
        code == level.code(),
{
    match level {
        LogLevel::Debug => 0,
        LogLevel::Info => 1,
        LogLevel::Warn => 2,
        LogLevel::Error => 3,
    }
}

/// Levels compare as their codes do, so `Debug < Info < Warn < Error`.
impl PartialOrd for LogLevel {
    fn partial_cmp(&self, other: &LogLevel) -> (order: Option<Ordering>) {
        let mine = level_code(self);
        let theirs = level_code(other);
        if mine < theirs {
            Some(Ordering::Less)
        } else if mine == theirs {
            Some(Ordering::Equal)
        } else {
            Some(Ordering::Greater)
        }
    }
}

impl vstd::std_specs::cmp::PartialOrdSpecImpl for LogLevel {
    open spec fn obeys_partial_cmp_spec() -> bool {
        true
    }

    open spec fn partial_cmp_spec(&self, other: &LogLevel) -> Option<Ordering> {
        if self.code() < other.code() {
            Some(Ordering::Less)
        } else if self.code() == other.code() {
            Some(Ordering::Equal)
        } else {
            Some(Ordering::Greater)
        }
    }
}

/// Codes lie between 0 and 3, and code, label and colour each tell the
/// four levels apart.
pub proof fn lemma_levels_distinct(a: LogLevel, b: LogLevel)
    ensures
        0 <= a.code() <= 3,
        a.code() == b.code() ==> a == b,
        a.label() == b.label() ==> a == b,
        a.color() == b.color() ==> a == b,
{
    reveal_strlit("DEBUG");
    reveal_strlit("INFO");
    reveal_strlit("WARN");
    reveal_strlit("ERROR");
    reveal_strlit("\x1b[36m");
    reveal_strlit("\x1b[32m");
    reveal_strlit("\x1b[33m");
    reveal_strlit("\x1b[31m");
    if a.label() == b.label() {
        assert(a.label()[0] == b.label()[0]);
    }
    if a.color() == b.color() {
        assert(a.color()[3] == b.color()[3]);
    }
}

/// The levels are totally ordered by severity: they compare as their codes
/// do, which grow from `Debug` to `Error`.
pub proof fn lemma_order_by_severity(a: LogLevel, b: LogLevel)
    ensures
        a.partial_cmp_spec(&b) == Some(Ordering::Less) <==> a.code() < b.code(),
        a.partial_cmp_spec(&b) == Some(Ordering::Equal) <==> a == b,
        a.partial_cmp_spec(&b) == Some(Ordering::Greater) <==> b.partial_cmp_spec(&a) == Some(
            Ordering::Less,
        ),
        LogLevel::Debug.code() < LogLevel::Info.code() < LogLevel::Warn.code()
            < LogLevel::Error.code(),
{
}

/// A label is four or five upper-case letters.
pub proof fn lemma_label_shape(level: LogLevel)
    ensures
        4 <= level.label().len() <= 5,
        all_upper(level.label()),
{
    reveal_strlit("DEBUG");
    reveal_strlit("INFO");
    reveal_strlit("WARN");
    reveal_strlit("ERROR");
}

/// No label holds another, and none holds itself but at its start.
pub proof fn lemma_label_in_label(level: LogLevel, token: LogLevel, at: int)
    requires
        occurs_at(level.label(), token.label(), at),
    ensures
        token == level,
        at == 0,
{
    reveal_strlit("DEBUG");
    reveal_strlit("INFO");
    reveal_strlit("WARN");
    reveal_strlit("ERROR");
    let n = token.label().len() as int;
    assert(level.label().subrange(at, at + n)[0] == token.label()[0]);
    assert(level.label().subrange(at, at + n)[1] == token.label()[1]);
}

} // verus!
