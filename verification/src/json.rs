//! The trusted boundary to serde_json: pretty-printing a message that looks
//! like JSON, and reading the two string fields of a service error payload.

use vstd::prelude::*;

verus! {

/// What pretty-printing `s` as JSON yields: `Some` of the two-space-indented
/// text when `s` parses as a JSON value, `None` otherwise. A function of the
/// characters of `s` alone.
pub uninterp spec fn pretty_json_of(s: Seq<char>) -> Option<Seq<char>>;

/// Relies on `serde_json::from_str` and `serde_json::to_string_pretty`:
/// whether a text parses, and the pretty form of the parsed value, depend on
/// the text alone.
#[verifier::external_body]
pub(crate) fn pretty_print_json(s: &str) -> (r: Option<String>)
    ensures
        r is Some <==> pretty_json_of(s@) is Some,
        r matches Some(p) ==> pretty_json_of(s@) == Some(p@),
{
    match serde_json::from_str::<serde_json::Value>(s) {
        Ok(v) => serde_json::to_string_pretty(&v).ok(),
        Err(_) => None,
    }
}

/// The `__type` and `message` fields of `s` parsed as JSON: `None` when `s`
/// is not valid JSON; otherwise the pair of those fields, each present only
/// where the document holds it as a string. A function of the characters of
/// `s` alone.
pub uninterp spec fn json_error_fields(s: Seq<char>) -> Option<
    (Option<Seq<char>>, Option<Seq<char>>),
>;

/// Relies on `serde_json::from_str`, `serde_json::Value::get` and
/// `serde_json::Value::as_str`: parsing and field lookup are deterministic in
/// the text alone.
#[verifier::external_body]
pub(crate) fn parse_error_fields(s: &str) -> (r: Option<(Option<String>, Option<String>)>)
    ensures
        r is Some <==> json_error_fields(s@) is Some,
        r matches Some(p) ==> json_error_fields(s@) matches Some(q) && (p.0 is Some <==> q.0
            is Some) && (p.0 matches Some(a) ==> q.0 == Some(a@)) && (p.1 is Some <==> q.1 is Some)
            && (p.1 matches Some(b) ==> q.1 == Some(b@)),
{
    let v: serde_json::Value = match serde_json::from_str(s) {
        Ok(v) => v,
        Err(_) => return None,
    };
    let code = v.get("__type").and_then(serde_json::Value::as_str).map(str::to_string);
    let msg = v.get("message").and_then(serde_json::Value::as_str).map(str::to_string);
    Some((code, msg))
}

} // verus!
