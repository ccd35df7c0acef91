//! What becomes of a message from the native validation layers.
//!
//! The library decides how serious a message is, how its line reads and where
//! it goes. Writing the line out is left to the caller.

use vstd::prelude::*;

verus! {

/// The bit of a severity mask that marks a verbose message.
pub const SEVERITY_VERBOSE: u32 = 0x1;

/// The bit of a severity mask that marks an informational message.
pub const SEVERITY_INFO: u32 = 0x10;

/// The bit of a severity mask that marks a warning.
pub const SEVERITY_WARNING: u32 = 0x100;

/// The bit of a severity mask that marks an error.
pub const SEVERITY_ERROR: u32 = 0x1000;

/// How serious a reported message is.
#[derive(Debug, Copy, Clone, PartialEq, Eq, Structural)]
pub enum MessageLevel {
    Information,
    Warning,
    Perfomance,
    Error,
    Debug,
}

/// The levels of the logging facade that a report can be filed under.
#[derive(Debug, Copy, Clone, PartialEq, Eq, Structural)]
pub enum LogLevel {
    Error,
    Warn,
    Info,
    Debug,
    Trace,
}

/// Whether every bit of `wanted` is set in `mask`.
pub open spec fn has_bits(mask: u32, wanted: u32) -> bool {
    mask & wanted == wanted
}

/// The level of a severity mask: the most serious bit that is set decides,
/// and a mask with none of the four bits counts as an error.
pub open spec fn level_of_severity(mask: u32) -> MessageLevel {
    if has_bits(mask, SEVERITY_ERROR) {
        MessageLevel::Error
    } else if has_bits(mask, SEVERITY_WARNING) {
        MessageLevel::Warning
    } else if has_bits(mask, SEVERITY_INFO) {
        MessageLevel::Debug
    } else if has_bits(mask, SEVERITY_VERBOSE) {
        MessageLevel::Information
    } else {
        MessageLevel::Error
    }
}

impl From<u32> for MessageLevel {
    /// Reads the level off a severity mask of the native interface.
    fn from(mask: u32) -> (level: MessageLevel) {
        if mask & SEVERITY_ERROR == SEVERITY_ERROR {
            MessageLevel::Error
        } else if mask & SEVERITY_WARNING == SEVERITY_WARNING {
            MessageLevel::Warning
        } else if mask & SEVERITY_INFO == SEVERITY_INFO {
            MessageLevel::Debug
        } else if mask & SEVERITY_VERBOSE == SEVERITY_VERBOSE {
            MessageLevel::Information
        } else {
            MessageLevel::Error
        }
    }
}

impl vstd::std_specs::convert::FromSpecImpl<u32> for MessageLevel {
    open spec fn obeys_from_spec() -> bool {
        true
    }

    open spec fn from_spec(mask: u32) -> MessageLevel {
        level_of_severity(mask)
    }
}

impl MessageLevel {
    /// The five characters that stand for the level in a report.
    pub open spec fn label(self) -> Seq<char> {
        match self {
            MessageLevel::Information => "INFO "@,
            MessageLevel::Warning => "WARN "@,
            MessageLevel::Perfomance => "PERF "@,
            MessageLevel::Error => "ERROR"@,
            MessageLevel::Debug => "DEBUG"@,
        }
    }

    /// The level of the logging facade that a message of this level goes to.
    pub open spec fn facade_level(self) -> LogLevel {
        match self {
            MessageLevel::Information => LogLevel::Info,
            MessageLevel::Warning => LogLevel::Warn,
            MessageLevel::Perfomance => LogLevel::Warn,
            MessageLevel::Error => LogLevel::Error,
            MessageLevel::Debug => LogLevel::Debug,
        }
    }

    /// The level as it is printed.
    pub fn to_string(&self) -> (text: String)
        ensures
            text@ == self.label(),
    {
        match self {
            MessageLevel::Information => "INFO ".to_owned(),
            MessageLevel::Warning => "WARN ".to_owned(),
            MessageLevel::Perfomance => "PERF ".to_owned(),
            MessageLevel::Error => "ERROR".to_owned(),
            MessageLevel::Debug => "DEBUG".to_owned(),
        }
    }

    /// The level under which the logging facade files the message.
    pub fn log_level(&self) -> (level: LogLevel)
        ensures
            level == self.facade_level(),
    {
        match self {
            MessageLevel::Information => LogLevel::Info,
            MessageLevel::Warning => LogLevel::Warn,
            MessageLevel::Perfomance => LogLevel::Warn,
            MessageLevel::Error => LogLevel::Error,
            MessageLevel::Debug => LogLevel::Debug,
        }
    }
}

/// Where a report is written.
#[derive(Debug, Copy, Clone, PartialEq, Eq, Structural)]
pub enum Sink {
    /// The standard output of the process.
    Console,
    /// The logging facade, at the level that the message's level maps to.
    Log,
}

/// A report that is ready to be written out.
#[derive(Debug, Clone)]
pub struct Report {
    /// Where the line goes.
    pub sink: Sink,
    /// The level to file it under, where the sink has levels.
    pub level: LogLevel,
    /// The line itself.
    pub line: String,
}

/// The line of a report: a fixed opening, the level's label in square
/// brackets, a colon and the message as it came.
pub open spec fn report_line(level: MessageLevel, msg: Seq<char>) -> Seq<char> {
    "Vulkan callback report ["@ + level.label() + "]: "@ + msg
}

/// Calls `String::push_str`, which appends the characters of `tail` to `text`
/// and changes nothing else of it.
#[verifier::external_body]
fn push_str(text: &mut String, tail: &str)
    ensures
        final(text)@ == old(text)@ + tail@,
{
    text.push_str(tail)
}

/// The handler of the messages that the validation layers report.
#[derive(Debug, Copy, Clone)]
pub struct Callback(pub Sink);

impl Callback {
    /// A handler whose reports go to the standard output.
    pub fn cout_reports() -> (callback: Self)
        ensures
            callback.0 == Sink::Console,
    {
        Callback(Sink::Console)
    }

    /// A handler whose reports go to the logging facade.
    pub fn log_reports() -> (callback: Self)
        ensures
            callback.0 == Sink::Log,
    {
        Callback(Sink::Log)
    }

    /// Turns a message and its level into the report that this handler files.
    pub fn report(&self, msg: &str, level: MessageLevel) -> (report: Report)
        ensures
            report.sink == self.0,
            report.level == level.facade_level(),
            report.line@ == report_line(level, msg@),
    {
        let label = level.to_string();
        let mut line = String::new();
        push_str(&mut line, "Vulkan callback report [");
        push_str(&mut line, label.as_str());
        push_str(&mut line, "]: ");
        push_str(&mut line, msg);
        Report { sink: self.0, level: level.log_level(), line }
    }
}

} // verus!
