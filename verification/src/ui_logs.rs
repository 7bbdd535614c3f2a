//! The logs view's per-entry logic: the quick display filter, the severity
//! class a line's colour derives from, and the entry header line.

use crate::text::{contains_substring, lower_of, lowercase, spec_contains};
use vstd::prelude::*;
use vstd::string::StringExecFns;

verus! {

/// The severity class a log line's colour derives from.
#[derive(Debug, Clone, Copy, PartialEq, Eq)]
pub enum LogLevel {
    Error,
    Warn,
    Info,
    Plain,
}

/// The class of a message: the first of ERROR, WARN, INFO found in it, or
/// plain text.
pub open spec fn spec_message_level(m: Seq<char>) -> LogLevel {
    if spec_contains(m, "ERROR"@) {
        LogLevel::Error
    } else if spec_contains(m, "WARN"@) {
        LogLevel::Warn
    } else if spec_contains(m, "INFO"@) {
        LogLevel::Info
    } else {
        LogLevel::Plain
    }
}

/// Classify a message for colouring.
pub fn message_level(message: &str) -> (r: LogLevel)
    ensures
        r == spec_message_level(message@),
{
    if contains_substring(message, "ERROR") {
        LogLevel::Error
    } else if contains_substring(message, "WARN") {
        LogLevel::Warn
    } else if contains_substring(message, "INFO") {
        LogLevel::Info
    } else {
        LogLevel::Plain
    }
}

/// Whether the quick display filter keeps an entry: an empty filter keeps
/// everything, otherwise the lowercased message must contain the lowercased
/// filter text.
pub fn entry_visible(filter_text: &str, message: &str) -> (r: bool)
    ensures
        r == (filter_text@.len() == 0 || spec_contains(
            lower_of(message@),
            lower_of(filter_text@),
        )),
{
    if filter_text.is_empty() {
        true
    } else {
        let m = lowercase(message);
        let f = lowercase(filter_text);
        contains_substring(m.as_str(), f.as_str())
    }
}

/// The header line over an entry: the rendered timestamp in brackets, then
/// the stream name in parentheses when there is one.
pub fn entry_header(ts_text: &str, stream: &Option<String>) -> (r: String)
    ensures
        match stream {
            Some(s) => r@ == "["@ + ts_text@ + "] ("@ + s@ + ")"@,
            None => r@ == "["@ + ts_text@ + "]"@,
        },
{
    let mut h = String::from_str("[");
    h.append(ts_text);
    match stream {
        Some(s) => {
            h.append("] (");
            h.append(s.as_str());
            h.append(")");
        },
        None => {
            h.append("]");
        },
    }
    h
}

} // verus!
