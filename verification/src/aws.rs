//! The data model shared with the log service, and the pure computations
//! behind the two service operations: clamping start times, capping page
//! sizes, mapping service events into entries, and mining a readable message
//! out of a service error's debug text.

use crate::json::{json_error_fields, parse_error_fields};
use crate::text::{
    find_substring, spec_find, spec_trim, spec_unescape_quotes, string_debug, string_debug_repr,
    trim_str, unescape_quotes,
};
use vstd::prelude::*;
use vstd::string::StrSliceExecFns;
use vstd::string::StringExecFns;

verus! {

/// A single log entry returned from the log service.
#[derive(Debug, Clone)]
pub struct LogEntry {
    pub timestamp_millis: i64,
    pub message: String,
    pub log_stream_name: Option<String>,
}

/// What can go wrong talking to the log service. `source` and `message`
/// carry the service's own rendering of the failure.
#[derive(Debug, Clone)]
pub enum AwsLogError {
    CloudWatch { log_group: String, source: String },
    ListLogGroups { region: String, message: String },
}

impl AwsLogError {
    /// The status-bar text for this error.
    pub open spec fn spec_message(&self) -> Seq<char> {
        match *self {
            AwsLogError::CloudWatch { log_group, source } => "CloudWatch Logs request failed for log group "@
                + string_debug_repr(log_group@) + ": "@ + source@,
            AwsLogError::ListLogGroups { region, message } => "failed to list CloudWatch log groups in region "@
                + region@ + ": "@ + message@,
        }
    }

    /// Render the error as the human-readable message shown in the status
    /// bar.
    pub fn message_string(&self) -> (r: String)
        ensures
            r@ == self.spec_message(),
    {
        match self {
            AwsLogError::CloudWatch { log_group, source } => {
                let mut s = String::from_str("CloudWatch Logs request failed for log group ");
                let dbg = string_debug(log_group);
                s.append(dbg.as_str());
                s.append(": ");
                s.append(source.as_str());
                s
            },
            AwsLogError::ListLogGroups { region, message } => {
                let mut s = String::from_str("failed to list CloudWatch log groups in region ");
                s.append(region.as_str());
                s.append(": ");
                s.append(message.as_str());
                s
            },
        }
    }
}

/// High-level parameters for fetching recent logs. `None` for profile,
/// region or filter means "use the service's default".
pub struct FetchLogsParams {
    pub profile: Option<String>,
    pub region: Option<String>,
    pub log_group: String,
    pub filter_pattern: Option<String>,
    pub lookback_secs: u64,
    pub limit: i32,
}

impl Default for FetchLogsParams {
    /// No profile, region or filter; an empty group; a five-minute lookback;
    /// at most 1000 events.
    fn default() -> (d: Self)
        ensures
            d.profile is None,
            d.region is None,
            d.log_group@ == Seq::<char>::empty(),
            d.filter_pattern is None,
            d.lookback_secs == 300,
            d.limit == 1000,
    {
        FetchLogsParams {
            profile: None,
            region: None,
            log_group: String::new(),
            filter_pattern: None,
            lookback_secs: 300,
            limit: 1000,
        }
    }
}

/// Clamp a signed offset from the Unix epoch, in milliseconds, into the
/// non-negative millisecond range that the log service accepts as a start
/// time. Offsets before the epoch collapse to 0; offsets beyond `i64::MAX`
/// saturate.
pub fn to_millis(offset_millis: i128) -> (r: i64)
    ensures
        offset_millis <= 0 ==> r == 0,
        0 < offset_millis <= i64::MAX ==> r == offset_millis,
        offset_millis > i64::MAX ==> r == i64::MAX,
{
    if offset_millis <= 0 {
        0
    } else if offset_millis >= i64::MAX as i128 {
        i64::MAX
    } else {
        offset_millis as i64
    }
}

/// The start time sent with a fetch request: `now` minus the lookback,
/// clamped to 0 so that no negative epoch value is ever requested.
pub fn fetch_start_time_millis(now_millis: i64, lookback_secs: u64) -> (r: i64)
    ensures
        now_millis - lookback_secs * 1000 > 0 ==> r == now_millis - lookback_secs * 1000,
        now_millis - lookback_secs * 1000 <= 0 ==> r == 0,
        r >= 0,
        r <= now_millis || r == 0,
{
    let diff: i128 = now_millis as i128 - (lookback_secs as i128) * 1000;
    to_millis(diff)
}

/// The page-size cap actually sent with a list-groups request: nothing for a
/// non-positive ask, otherwise the ask bounded by the service's maximum page
/// size of 50.
pub fn cap_list_limit(limit: i32) -> (r: Option<i32>)
    ensures
        limit <= 0 ==> r is None,
        0 < limit <= 50 ==> r == Some(limit),
        limit > 50 ==> r == Some(50i32),
{
    if limit <= 0 {
        None
    } else if limit < 50 {
        Some(limit)
    } else {
        Some(50)
    }
}

/// Map one service event into a `LogEntry`: absent fields become the
/// defaults (timestamp 0, empty message, no stream name).
pub fn filtered_to_entry(
    timestamp: Option<i64>,
    message: Option<String>,
    log_stream_name: Option<String>,
) -> (e: LogEntry)
    ensures
        e.timestamp_millis == (match timestamp {
            Some(t) => t,
            None => 0,
        }),
        e.message@ == (match message {
            Some(m) => m@,
            None => Seq::<char>::empty(),
        }),
        e.log_stream_name == log_stream_name,
{
    LogEntry {
        timestamp_millis: match timestamp {
            Some(t) => t,
            None => 0,
        },
        message: match message {
            Some(m) => m,
            None => String::new(),
        },
        log_stream_name,
    }
}

/// The group names kept from a listing response: absent names dropped, the
/// rest trimmed.
pub open spec fn spec_collect_group_names(s: Seq<Option<Seq<char>>>) -> Seq<Seq<char>>
    decreases s.len(),
{
    if s.len() == 0 {
        Seq::empty()
    } else {
        spec_collect_group_names(s.drop_last()) + (match s.last() {
            Some(n) => seq![spec_trim(n)],
            None => Seq::empty(),
        })
    }
}

/// Keep the present names of a listing response, trimmed, in order.
pub fn collect_group_names(raw: Vec<Option<String>>) -> (r: Vec<String>)
    ensures
        r.deep_view() == spec_collect_group_names(raw.deep_view()),
{
    let mut out: Vec<String> = Vec::new();
    let mut i: usize = 0;
    proof {
        assert(raw.deep_view().take(0) =~= Seq::<Option<Seq<char>>>::empty());
    }
    while i < raw.len()
        invariant
            i <= raw.len(),
            out.deep_view() == spec_collect_group_names(raw.deep_view().take(i as int)),
        decreases raw.len() - i,
    {
        let ghost out0 = out.deep_view();
        let ghost dv = raw.deep_view();
        match &raw[i] {
            Some(name) => {
                let t = trim_str(name.as_str());
                out.push(String::from_str(t));
                proof {
                    assert(out.deep_view() =~= out0.push(spec_trim(name@)));
                }
            },
            None => {},
        }
        i += 1;
        proof {
            let k = i as int;
            assert(dv.take(k).drop_last() =~= dv.take(k - 1));
            assert(dv.take(k).last() == dv[k - 1]);
            match raw@[k - 1] {
                Some(name) => {
                    assert(dv[k - 1] == Some(name@));
                    assert(out.deep_view() =~= spec_collect_group_names(dv.take(k - 1)) + seq![
                        spec_trim(name@),
                    ]);
                },
                None => {
                    assert(dv[k - 1] is None);
                    assert(out.deep_view() =~= spec_collect_group_names(dv.take(k - 1))
                        + Seq::<Seq<char>>::empty());
                },
            }
        }
    }
    proof {
        assert(raw.deep_view().take(raw.len() as int) =~= raw.deep_view());
    }
    out
}

/// The region named in a list-groups error: the chosen one, or a
/// placeholder when the service default was in use.
pub fn region_display(region: &Option<String>) -> (r: String)
    ensures
        match region {
            Some(rg) => r@ == rg@,
            None => r@ == "<default>"@,
        },
{
    match region {
        Some(rg) => rg.clone(),
        None => String::from_str("<default>"),
    }
}

/// How the `__type` and `message` fields of an error payload combine into
/// one line: both joined by a colon, a lone one alone, neither nothing.
pub open spec fn spec_compose_error_fields(
    code: Option<Seq<char>>,
    msg: Option<Seq<char>>,
) -> Option<Seq<char>> {
    let c = match code {
        Some(c) => c,
        None => Seq::<char>::empty(),
    };
    let m = match msg {
        Some(m) => m,
        None => Seq::<char>::empty(),
    };
    if c.len() > 0 && m.len() > 0 {
        Some(c + ": "@ + m)
    } else if c.len() > 0 {
        Some(c)
    } else if m.len() > 0 {
        Some(m)
    } else {
        None
    }
}

/// The readable message mined from a service error's debug text: the first
/// `b"{`-quoted JSON payload, unescaped, with its `__type` and `message`
/// fields composed.
pub open spec fn spec_extract_nice(s: Seq<char>) -> Option<Seq<char>> {
    match spec_find(s, "b\"{"@) {
        Some(si) => {
            let rest = s.skip(si + 2);
            match spec_find(rest, "\"}"@) {
                Some(ei) => {
                    let json = rest.take(ei + 2);
                    match json_error_fields(spec_unescape_quotes(json)) {
                        Some(fields) => spec_compose_error_fields(fields.0, fields.1),
                        None => None,
                    }
                },
                None => None,
            }
        },
        None => None,
    }
}

/// Mine a human-readable message out of the debug rendering of a service
/// error, by locating the raw JSON payload embedded in it and reading its
/// `__type` and `message` fields.
pub fn extract_nice_aws_message_from_debug(debug_str: &str) -> (r: Option<String>)
    ensures
        r is Some <==> spec_extract_nice(debug_str@) is Some,
        r matches Some(m) ==> spec_extract_nice(debug_str@) == Some(m@),
{
    proof {
        reveal_strlit("b\"{");
        reveal_strlit("\"}");
    }
    let si = match find_substring(debug_str, "b\"{") {
        Some(i) => i,
        None => {
            return None;
        },
    };
    let len = debug_str.unicode_len();
    let rest = debug_str.substring_char(si + 2, len);
    proof {
        assert(rest@ =~= debug_str@.skip(si + 2));
    }
    let ei = match find_substring(rest, "\"}") {
        Some(i) => i,
        None => {
            return None;
        },
    };
    let json_slice = rest.substring_char(0, ei + 2);
    proof {
        assert(json_slice@ =~= rest@.take(ei + 2));
    }
    let unescaped = unescape_quotes(json_slice);
    let fields = match parse_error_fields(unescaped.as_str()) {
        Some(f) => f,
        None => {
            return None;
        },
    };
    let ghost spec_fields = json_error_fields(spec_unescape_quotes(json_slice@)).unwrap();
    let code = match fields.0 {
        Some(c) => c,
        None => String::new(),
    };
    let msg = match fields.1 {
        Some(m) => m,
        None => String::new(),
    };
    proof {
        assert(code@ == (match spec_fields.0 {
            Some(c) => c,
            None => Seq::<char>::empty(),
        }));
        assert(msg@ == (match spec_fields.1 {
            Some(m) => m,
            None => Seq::<char>::empty(),
        }));
    }
    if !code.as_str().is_empty() && !msg.as_str().is_empty() {
        let mut r = code;
        r.append(": ");
        r.append(msg.as_str());
        Some(r)
    } else if !code.as_str().is_empty() {
        Some(code)
    } else if !msg.as_str().is_empty() {
        Some(msg)
    } else {
        None
    }
}

} // verus!
