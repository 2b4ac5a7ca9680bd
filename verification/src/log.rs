//! The log line model: severity tags, the entry record handed to log
//! observers, and the console line formatter.

use vstd::prelude::*;

verus! {

/// The severity tag of a log line.
#[derive(Debug, Clone, Copy, PartialEq, Eq, Structural)]
pub enum LogType {
    INFO,
    WARN,
    ERROR,
    EVENT,
    SEND,
}

/// The tag's name.
pub open spec fn spec_log_type_name(t: LogType) -> Seq<char> {
    match t {
        LogType::INFO => "INFO"@,
        LogType::WARN => "WARN"@,
        LogType::ERROR => "ERROR"@,
        LogType::EVENT => "EVENT"@,
        LogType::SEND => "SEND"@,
    }
}

impl LogType {
    /// The tag's name.
    pub fn as_str(&self) -> (r: &'static str)
        ensures
            r@ == spec_log_type_name(*self),
    {
        match self {
            LogType::INFO => "INFO",
            LogType::WARN => "WARN",
            LogType::ERROR => "ERROR",
            LogType::EVENT => "EVENT",
            LogType::SEND => "SEND",
        }
    }
}

/// One log line as handed to a registered observer.
#[derive(Debug, Clone)]
pub struct LogEntry {
    pub message: String,
    pub log_type: LogType,
    pub timestamp: String,
}

/// The colored console prefix of a severity tag.
pub open spec fn spec_log_prefix(t: LogType) -> Seq<char> {
    match t {
        LogType::INFO => "[\x1b[36mINFO\x1b[m]\t"@,
        LogType::WARN => "[\x1b[33mWARN\x1b[m]\t"@,
        LogType::ERROR => "[\x1b[31mERROR\x1b[m]\t"@,
        LogType::EVENT => "[\x1b[35mEVENT\x1b[m]\t"@,
        LogType::SEND => "[\x1b[32mSEND\x1b[m]\t"@,
    }
}

/// The console form of a log line: the colored severity prefix, the
/// message, and a line break.
pub fn print_log(message: String, log_type: LogType) -> (r: String)
    ensures
        r@ == spec_log_prefix(log_type) + message@ + "\n"@,
{
    let prefix = match log_type {
        LogType::INFO => "[\x1b[36mINFO\x1b[m]\t",
        LogType::WARN => "[\x1b[33mWARN\x1b[m]\t",
        LogType::ERROR => "[\x1b[31mERROR\x1b[m]\t",
        LogType::EVENT => "[\x1b[35mEVENT\x1b[m]\t",
        LogType::SEND => "[\x1b[32mSEND\x1b[m]\t",
    };
    let out = String::from_str(prefix);
    let out = out.concat(message.as_str());
    let out = out.concat("\n");
    out
}

} // verus!
