//! The logs view's state record and the two pure presentation helpers:
//! timestamp rendering and JSON pretty-printing of log messages.

use crate::aws::LogEntry;
use crate::json::{pretty_json_of, pretty_print_json};
use crate::text::spec_trim;
use crate::text::trim_str;
use crate::timefmt::{format_local, format_utc, utc_timestamp_text};
use vstd::prelude::*;
use vstd::string::StrSliceExecFns;
use vstd::string::StringExecFns;

verus! {

/// Which main view is active. Only the logs view exists today.
#[derive(Debug, Clone, Copy, PartialEq, Eq)]
pub enum ActiveView {
    Logs,
}

/// The colour scheme applied to the whole window.
#[derive(Debug, Clone, Copy, PartialEq, Eq)]
pub enum Theme {
    Light,
    Dark,
    RetroGreen,
}

impl Theme {
    /// The theme the toggle button advances to.
    pub fn next(self) -> (r: Theme)
        ensures
            self == Theme::Light ==> r == Theme::Dark,
            self == Theme::Dark ==> r == Theme::RetroGreen,
            self == Theme::RetroGreen ==> r == Theme::Light,
    {
        match self {
            Theme::Light => Theme::Dark,
            Theme::Dark => Theme::RetroGreen,
            Theme::RetroGreen => Theme::Light,
        }
    }
}

/// Everything the logs view reads and edits: connection fields, the loaded
/// group list and selection, the fetched entries, and the tail-mode timer.
/// `last_tail_instant` holds a reading of the caller's monotonic clock in
/// milliseconds.
pub struct LogsViewState {
    pub profile: String,
    pub region: String,
    pub log_group: String,
    pub filter_text: String,
    pub available_groups: Vec<String>,
    pub selected_group_index: Option<usize>,
    pub tail_mode: bool,
    pub show_local_time: bool,
    pub entries: Vec<LogEntry>,
    pub tail_interval_secs: u64,
    pub last_tail_instant: Option<u64>,
}

impl LogsViewState {
    /// The state a fresh window starts from.
    pub fn new_default() -> (s: Self)
        ensures
            s.profile@ == "form"@,
            s.region@ == "eu-west-1"@,
            s.log_group@ == Seq::<char>::empty(),
            s.filter_text@ == Seq::<char>::empty(),
            !s.tail_mode,
            !s.show_local_time,
            s.entries@ == Seq::<LogEntry>::empty(),
            s.available_groups@ == Seq::<String>::empty(),
            s.selected_group_index is None,
            s.tail_interval_secs == 5,
            s.last_tail_instant is None,
    {
        LogsViewState {
            profile: String::from_str("form"),
            region: String::from_str("eu-west-1"),
            log_group: String::new(),
            filter_text: String::new(),
            tail_mode: false,
            show_local_time: false,
            entries: Vec::new(),
            available_groups: Vec::new(),
            selected_group_index: None,
            tail_interval_secs: 5,
            last_tail_instant: None,
        }
    }

    /// Set the tail interval from the widget's value, clamped to [1, 300]
    /// seconds.
    pub fn set_tail_interval(&mut self, secs: i32)
        ensures
            *final(self) == (LogsViewState {
                tail_interval_secs: if secs < 1 {
                    1u64
                } else if secs > 300 {
                    300u64
                } else {
                    secs as u64
                },
                ..*old(self)
            }),
    {
        let v: u64 = if secs < 1 {
            1
        } else if secs > 300 {
            300
        } else {
            secs as u64
        };
        self.tail_interval_secs = v;
    }
}

/// Render an epoch-millisecond timestamp for display. Non-positive stamps
/// show as `-`; otherwise UTC text is pinned down exactly, while local-time
/// text follows the machine's time zone.
pub fn format_timestamp_millis(ts_millis: i64, use_local: bool) -> (r: String)
    ensures
        ts_millis <= 0 ==> r@ == "-"@,
        ts_millis > 0 && !use_local ==> (match utc_timestamp_text(
            ts_millis / 1000,
            (ts_millis % 1000) * 1_000_000,
        ) {
            Some(t) => r@ == t,
            None => r@ == "-"@,
        }),
{
    if ts_millis <= 0 {
        return String::from_str("-");
    }
    let secs = ts_millis / 1000;
    let nanos = ((ts_millis % 1000) * 1_000_000) as u32;

    if use_local {
        match format_local(secs, nanos) {
            Some(t) => t,
            None => String::from_str("-"),
        }
    } else {
        match format_utc(secs, nanos) {
            Some(t) => t,
            None => String::from_str("-"),
        }
    }
}

/// The quick shape test a message must pass before it is pretty-printed:
/// trimmed, non-empty, and bracketed like a JSON object or array.
pub open spec fn spec_pretty_gate(s: Seq<char>) -> bool {
    let t = spec_trim(s);
    t.len() > 0 && ((t[0] == '{' && t[t.len() - 1] == '}') || (t[0] == '[' && t[t.len() - 1]
        == ']'))
}

/// Pretty-print a log message when it looks like, and parses as, JSON;
/// `None` otherwise.
pub fn try_pretty_json(message: &str) -> (r: Option<String>)
    ensures
        r matches Some(p) ==> spec_pretty_gate(message@) && pretty_json_of(spec_trim(message@))
            == Some(p@),
        r is None ==> !spec_pretty_gate(message@) || pretty_json_of(spec_trim(message@)) is None,
{
    let trimmed = trim_str(message);
    let n = trimmed.unicode_len();
    if n == 0 {
        return None;
    }
    let first = trimmed.get_char(0);
    let last = trimmed.get_char(n - 1);
    if !((first == '{' && last == '}') || (first == '[' && last == ']')) {
        return None;
    }
    pretty_print_json(trimmed)
}

} // verus!
