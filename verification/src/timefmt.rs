//! The trusted boundary to chrono: rendering an epoch instant as text, in
//! UTC or in the machine's local time zone.

use chrono::TimeZone;
use vstd::prelude::*;

verus! {

/// The text chrono renders for the UTC instant `secs`/`nanos` with the
/// format `%Y-%m-%d %H:%M:%S%.3fZ`: `Some` text for an in-range instant,
/// `None` where chrono rejects it. A function of the two numbers alone.
pub uninterp spec fn utc_timestamp_text(secs: int, nanos: int) -> Option<Seq<char>>;

/// Relies on chrono's `TimeZone::timestamp_opt` for `Utc` and on
/// `DateTime::format`: the rendered UTC text depends on `secs` and `nanos`
/// alone, and out-of-range seconds yield `LocalResult::None`.
#[verifier::external_body]
pub(crate) fn format_utc(secs: i64, nanos: u32) -> (r: Option<String>)
    ensures
        r is Some <==> utc_timestamp_text(secs as int, nanos as int) is Some,
        r matches Some(t) ==> utc_timestamp_text(secs as int, nanos as int) == Some(t@),
{
    match chrono::Utc.timestamp_opt(secs, nanos) {
        chrono::LocalResult::Single(dt) => Some(dt.format("%Y-%m-%d %H:%M:%S%.3fZ").to_string()),
        _ => None,
    }
}

/// Relies on chrono's `TimeZone::timestamp_opt` for `Local` and on
/// `DateTime::format`. The text depends on the machine's time zone, so
/// nothing is promised of it.
#[verifier::external_body]
pub(crate) fn format_local(secs: i64, nanos: u32) -> (r: Option<String>) {
    match chrono::Local.timestamp_opt(secs, nanos) {
        chrono::LocalResult::Single(dt) => Some(dt.format("%Y-%m-%d %H:%M:%S%.3f").to_string()),
        _ => None,
    }
}

} // verus!
