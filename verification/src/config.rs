//! What a pass is configured with.

use vstd::prelude::*;

verus! {

/// How much a pass says about the classes it has processed.
#[derive(Debug, Clone, Copy, PartialEq, Eq, Structural)]
pub enum LogLevel {
    /// Nothing is reported.
    Off,
    /// One line for each processed class: its name and the types found.
    Info,
    /// The line of `Info`, followed by a rendering of the whole class node.
    Debug,
}

impl Default for LogLevel {
    fn default() -> (level: Self)
        ensures
            level == LogLevel::Off,
    {
        LogLevel::Off
    }
}

/// The configuration of a pass. It is read once, when the visitor is built,
/// and never changes afterwards.
#[derive(Debug, Clone, Copy, PartialEq, Eq, Structural)]
pub struct Config {
    /// The level at which the pass reports.
    pub log: LogLevel,
}

impl Default for Config {
    /// The default configuration reports nothing.
    fn default() -> (config: Self)
        ensures
            config.log == LogLevel::Off,
    {
        Config { log: LogLevel::Off }
    }
}

} // verus!
