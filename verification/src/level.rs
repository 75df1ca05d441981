//! Log severity levels and their fixed four-character display tags.

use vstd::prelude::*;

verus! {

/// A log severity level, from least to most severe.
#[derive(Clone, Copy, Debug, PartialEq, Eq, Structural)]
pub enum Level {
    Trace,
    Debug,
    Info,
    Warn,
    Error,
}

/// The four-character, lowercase tag shown for each severity level.
pub open spec fn spec_level_tag(lv: Level) -> Seq<char> {
    match lv {
        Level::Trace => "trac"@,
        Level::Debug => "debg"@,
        Level::Info => "info"@,
        Level::Warn => "warn"@,
        Level::Error => "eror"@,
    }
}

/// Returns the fixed four-character display tag of a severity level.
pub fn level_display(lv: Level) -> (r: &'static str)
    ensures
        r@ == spec_level_tag(lv),
{
    match lv {
        Level::Trace => "trac",
        Level::Debug => "debg",
        Level::Info => "info",
        Level::Warn => "warn",
        Level::Error => "eror",
    }
}

} // verus!
