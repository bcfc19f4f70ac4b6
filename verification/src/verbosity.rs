//! How much the program logs.

use vstd::prelude::*;

verus! {

/// The detail that is logged, from the least to the most.
#[derive(Clone, Copy, Debug, PartialEq, Eq, Structural)]
pub enum LogLevel {
    Info,
    Debug,
    Trace,
}

/// The detail asked for by giving the verbosity flag `flags` times: none
/// without the flag, then one step more for each of the first three.
pub open spec fn log_level_of(flags: u64) -> Option<LogLevel> {
    if flags == 0 {
        None
    } else if flags == 1 {
        Some(LogLevel::Info)
    } else if flags == 2 {
        Some(LogLevel::Debug)
    } else {
        Some(LogLevel::Trace)
    }
}

/// The detail asked for by giving the verbosity flag `flags` times. `None`
/// leaves the logger as its surroundings have set it up.
pub fn log_level(flags: u64) -> (r: Option<LogLevel>)
    ensures
        r == log_level_of(flags),
{
    match flags {
        0 => None,
        1 => Some(LogLevel::Info),
        2 => Some(LogLevel::Debug),
        _ => Some(LogLevel::Trace),
    }
}

impl LogLevel {
    /// The name that the logger knows the level by.
    pub open spec fn name_text(self) -> Seq<char> {
        match self {
            LogLevel::Info => "info"@,
            LogLevel::Debug => "debug"@,
            LogLevel::Trace => "trace"@,
        }
    }

    /// The name that the logger knows the level by.
    pub fn name(&self) -> (r: &'static str)
        ensures
            r@ == self.name_text(),
    {
        match self {
            LogLevel::Info => "info",
            LogLevel::Debug => "debug",
            LogLevel::Trace => "trace",
        }
    }
}

} // verus!
