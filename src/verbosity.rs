//! How much a run logs, from the verbosity options.

use vstd::prelude::*;

verus! {

/// The least severe level of messages that are shown.
#[derive(Clone, Copy, Debug, PartialEq, Eq, Structural)]
pub enum LogLevel {
    Off,
    Info,
    Debug,
    Trace,
}

/// `quiet` silences everything; otherwise each repetition of the debug
/// option lowers the level by one, from `Info` down to `Trace`.
pub fn log_level(quiet: bool, debug_count: u8) -> (l: LogLevel)
    ensures
        quiet ==> l == LogLevel::Off,
        !quiet && debug_count == 0 ==> l == LogLevel::Info,
        !quiet && debug_count == 1 ==> l == LogLevel::Debug,
        !quiet && debug_count >= 2 ==> l == LogLevel::Trace,
{
    if quiet {
        LogLevel::Off
    } else if debug_count == 0 {
        LogLevel::Info
    } else if debug_count == 1 {
        LogLevel::Debug
    } else {
        LogLevel::Trace
    }
}

} // verus!
