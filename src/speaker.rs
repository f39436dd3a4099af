//! Which speech cues a configured log level lets through. Each level lets
//! through its own cues and those of the levels above it.
use vstd::prelude::*;
use crate::modes::str_equal;

verus! {

/// Whether `level` is one of the level names from DEBUG up to `upto`
/// (0 DEBUG, 1 INFO, 2 WARN, 3 ERROR).
pub open spec fn level_within(level: Seq<char>, upto: int) -> bool {
    level == "DEBUG"@ || (upto >= 1 && level == "INFO"@) || (upto >= 2 && level == "WARN"@) || (
    upto >= 3 && level == "ERROR"@)
}

fn within(level: &str, upto: u8) -> (r: bool)
    ensures
        r == level_within(level@, upto as int),
{
    str_equal(level, "DEBUG") || (upto >= 1 && str_equal(level, "INFO")) || (upto >= 2
        && str_equal(level, "WARN")) || (upto >= 3 && str_equal(level, "ERROR"))
}

/// Whether a debug cue is spoken at the configured level; the caller plays
/// `_name` when it is.
pub fn debug(_name: &str, level: &str) -> (r: bool)
    ensures
        r == level_within(level@, 0),
{
    within(level, 0)
}

/// Whether an info cue is spoken at the configured level.
pub fn info(_name: &str, level: &str) -> (r: bool)
    ensures
        r == level_within(level@, 1),
{
    within(level, 1)
}

/// Whether a warning cue is spoken at the configured level.
pub fn warn(_name: &str, level: &str) -> (r: bool)
    ensures
        r == level_within(level@, 2),
{
    within(level, 2)
}

/// Whether an error cue is spoken at the configured level.
pub fn error(_name: &str, level: &str) -> (r: bool)
    ensures
        r == level_within(level@, 3),
{
    within(level, 3)
}

} // verus!
