//! What the kernel logs, and in which colour.
//!
//! The logger itself belongs to the caller. These functions make its two
//! decisions: which levels are logged at all, and the colour of a line.

use vstd::prelude::*;
use vstd::string::StrSliceExecFns;

verus! {

/// How grave a log line is, from the gravest on.
#[derive(Clone, Copy, Debug, PartialEq, Eq, Structural)]
pub enum Level {
    Error,
    Warn,
    Info,
    Debug,
    Trace,
}

/// The gravity down to which lines are logged.
#[derive(Clone, Copy, Debug, PartialEq, Eq, Structural)]
pub enum LevelFilter {
    /// Nothing is logged.
    Off,
    Error,
    Warn,
    Info,
    Debug,
    Trace,
}

/// The level filter that the build-time setting `log` asks for: the level
/// that it names in capitals, and `Off` where it names none or is not set.
pub open spec fn level_filter(log: Option<Seq<char>>) -> LevelFilter {
    match log {
        Some(name) => if name == "ERROR"@ {
            LevelFilter::Error
        } else if name == "WARN"@ {
            LevelFilter::Warn
        } else if name == "INFO"@ {
            LevelFilter::Info
        } else if name == "DEBUG"@ {
            LevelFilter::Debug
        } else if name == "TRACE"@ {
            LevelFilter::Trace
        } else {
            LevelFilter::Off
        },
        None => LevelFilter::Off,
    }
}

/// The characters of the setting `log`, if it is set.
pub open spec fn setting_chars(log: Option<&str>) -> Option<Seq<char>> {
    match log {
        Some(name) => Some(name@),
        None => None,
    }
}

/// Whether the strings `a` and `b` hold the same characters.
fn same_chars(a: &str, b: &str) -> (same: bool)
    ensures
        same == (a@ == b@),
{
    let n = a.unicode_len();
    if n != b.unicode_len() {
        return false;
    }
    let mut i: usize = 0;
    while i < n
        invariant
            i <= n,
            n == a@.len(),
            n == b@.len(),
            forall|j: int| 0 <= j < i ==> a@[j] == b@[j],
        decreases n - i,
    {
        if a.get_char(i) != b.get_char(i) {
            return false;
        }
        i += 1;
    }
    assert(a@ =~= b@);
    true
}

/// Starts logging: from the build-time setting `log`, decides down to which
/// level lines are logged.
pub fn init(log: Option<&str>) -> (filter: LevelFilter)
    ensures
        filter == level_filter(setting_chars(log)),
{
    match log {
        Some(name) => {
            if same_chars(name, "ERROR") {
                LevelFilter::Error
            } else if same_chars(name, "WARN") {
                LevelFilter::Warn
            } else if same_chars(name, "INFO") {
                LevelFilter::Info
            } else if same_chars(name, "DEBUG") {
                LevelFilter::Debug
            } else if same_chars(name, "TRACE") {
                LevelFilter::Trace
            } else {
                LevelFilter::Off
            }
        },
        None => LevelFilter::Off,
    }
}

/// The code of the terminal colour in which a line of level `level` is
/// printed.
pub open spec fn color_of(level: Level) -> u8 {
    match level {
        Level::Error => 31,
        Level::Warn => 93,
        Level::Info => 34,
        Level::Debug => 32,
        Level::Trace => 90,
    }
}

/// The code of the terminal colour in which a line of level `level` is
/// printed: red for errors, bright yellow for warnings, blue for
/// information, green for debugging and bright black for traces.
pub fn level_color(level: Level) -> (color: u8)
    ensures
        color == color_of(level),
{
    match level {
        Level::Error => 31,
        Level::Warn => 93,
        Level::Info => 34,
        Level::Debug => 32,
        Level::Trace => 90,
    }
}

} // verus!
