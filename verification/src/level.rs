//! The ordered severity scale and the color rule for rendered records.

use vstd::prelude::*;

verus! {

/// Severity of a log record, most severe first. A smaller rank means a more
/// severe level, so "at least as severe" reads as `severity(a) <= severity(b)`.
#[derive(Clone, Copy, Debug, PartialEq, Eq, Structural)]
pub enum Level {
    Error,
    Warn,
    Info,
    Debug,
    Trace,
}

/// Rank of a level on the severity scale: 1 for the most severe, 5 for the
/// least. All ordering claims of this crate are stated over this rank.
pub open spec fn severity(l: Level) -> int {
    match l {
        Level::Error => 1,
        Level::Warn => 2,
        Level::Info => 3,
        Level::Debug => 4,
        Level::Trace => 5,
    }
}

impl Level {
    /// Executable form of the severity rank.
    pub fn rank(&self) -> (r: u8)
        ensures
            r as int == severity(*self),
    {
        match self {
            Level::Error => 1,
            Level::Warn => 2,
            Level::Info => 3,
            Level::Debug => 4,
            Level::Trace => 5,
        }
    }
}

/// Whether a record at `level` passes a configured `threshold`: true exactly
/// when the record is at least as severe as the threshold.
pub open spec fn accepts(threshold: Level, level: Level) -> bool {
    severity(level) <= severity(threshold)
}

/// Foreground color used for the record's target label.
#[derive(Clone, Copy, Debug, PartialEq, Eq, Structural)]
pub enum Color {
    Red,
    Green,
}

/// The color rule: red for records strictly more severe than `Info`
/// (error- and warning-class), green otherwise.
pub open spec fn color_of(level: Level) -> Color {
    if severity(level) < severity(Level::Info) {
        Color::Red
    } else {
        Color::Green
    }
}

/// Executable color choice for a record's level.
pub fn pick_color(level: Level) -> (r: Color)
    ensures
        r == color_of(level),
{
    if level.rank() < Level::Info.rank() {
        Color::Red
    } else {
        Color::Green
    }
}

/// The color choice is a pure function of the severity rank alone: it is red
/// exactly for levels strictly more severe than `Info`, and two levels of
/// equal rank are always given the same color.
pub proof fn lemma_color_by_severity(a: Level, b: Level)
    ensures
        (color_of(a) == Color::Red) <==> severity(a) < severity(Level::Info),
        severity(a) == severity(b) ==> color_of(a) == color_of(b),
{
}

} // verus!
