//! The logger itself: the configured threshold, the acceptance test, and the
//! rendering of an accepted record into a colored console line.

use vstd::prelude::*;
use crate::level::Color;
use crate::level::Level;
use crate::level::accepts;
use crate::level::color_of;
use crate::level::pick_color;

verus! {

/// Width of the right-justified target label field.
pub const LABEL_WIDTH: usize = 12;

/// A run of `n` spaces.
pub open spec fn space_pad(n: nat) -> Seq<char> {
    Seq::new(n, |i: int| ' ')
}

/// The target label right-justified in a field of `LABEL_WIDTH` characters:
/// a label shorter than the field is preceded by spaces up to the field
/// width; a longer one is kept whole and unpadded.
pub open spec fn padded_label(s: Seq<char>) -> Seq<char> {
    if s.len() >= LABEL_WIDTH {
        s
    } else {
        space_pad((LABEL_WIDTH - s.len()) as nat) + s
    }
}

/// What follows the label on the line: one space, the message, a newline.
pub open spec fn message_tail(msg: Seq<char>) -> Seq<char> {
    seq![' '] + msg + seq!['\n']
}

/// The target label rendered right-justified in `LABEL_WIDTH` characters.
pub fn render_label(target: &str) -> (r: String)
    ensures
        r@ == padded_label(target@),
{
    let len = target.unicode_len();
    let mut r = String::new();
    if len < LABEL_WIDTH {
        let mut i: usize = len;
        while i < LABEL_WIDTH
            invariant
                len == target@.len(),
                len <= i <= LABEL_WIDTH,
                r@ =~= space_pad((i - len) as nat),
            decreases LABEL_WIDTH - i,
        {
            proof {
                reveal_strlit(" ");
            }
            r.append(" ");
            i = i + 1;
        }
    }
    r.append(target);
    proof {
        assert(r@ =~= padded_label(target@));
    }
    r
}

/// The rest of the line after the label: a space, the message, a newline.
pub fn render_tail(message: &str) -> (r: String)
    ensures
        r@ == message_tail(message@),
{
    proof {
        reveal_strlit(" ");
        reveal_strlit("\n");
    }
    let mut r = String::from_str(" ");
    r.append(message);
    r.append("\n");
    proof {
        assert(r@ =~= message_tail(message@));
    }
    r
}

/// Everything the console needs for one accepted record: the label color,
/// the padded label, and the rest of the line. The label is written under
/// the color, the styling is reset, then the rest of the line is written.
pub struct Emission {
    pub color: Color,
    pub label: String,
    pub rest: String,
}

/// A console logger holding the one configured value: the minimum severity
/// a record must have to be emitted.
pub struct Logger {
    pub level: Level,
}

impl Logger {
    /// A logger with the given threshold. Every level is a valid threshold.
    pub fn new(level: Level) -> (r: Logger)
        ensures
            r.level == level,
    {
        Logger { level }
    }

    /// The configured threshold.
    pub fn level(&self) -> (r: Level)
        ensures
            r == self.level,
    {
        self.level
    }

    /// The acceptance test: true exactly when `level` is at least as severe
    /// as the configured threshold.
    pub fn enabled(&self, level: Level) -> (r: bool)
        ensures
            r == accepts(self.level, level),
    {
        level.rank() <= self.level.rank()
    }

    /// Renders a record into what the console should show, or `None` when the
    /// record does not pass the acceptance test. Acceptance is re-checked
    /// here, so an unfiltered record is tolerated and still dropped.
    pub fn log(&self, level: Level, target: &str, message: &str) -> (r: Option<Emission>)
        ensures
            r is Some <==> accepts(self.level, level),
            r is Some ==> r->0.color == color_of(level),
            r is Some ==> r->0.label@ == padded_label(target@),
            r is Some ==> r->0.rest@ == message_tail(message@),
    {
        if self.enabled(level) {
            Some(
                Emission {
                    color: pick_color(level),
                    label: render_label(target),
                    rest: render_tail(message),
                },
            )
        } else {
            None
        }
    }
}

} // verus!
