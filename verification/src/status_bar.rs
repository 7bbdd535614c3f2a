//! The status bar's logic: the one-line status text, its error colouring,
//! and the credential-expiry hint.

use crate::app::App;
use crate::text::{contains_substring, spec_contains};
use vstd::prelude::*;
use vstd::string::StrSliceExecFns;
use vstd::string::StringExecFns;

verus! {

/// The status-bar text for the current state: progress first, then the most
/// recent error (truncated past 61 characters to a 58-character head and an
/// ellipsis), then the info message, then quiet readiness.
pub open spec fn spec_status_text(app: App) -> Seq<char> {
    if app.is_fetching {
        "Fetching logs…"@
    } else if app.is_loading_groups {
        "Loading log groups…"@
    } else {
        match app.last_error {
            Some(e) => if e@.len() > 61 {
                "Error: "@ + e@.subrange(0, 58) + "…"@
            } else {
                "Error: "@ + e@
            },
            None => match app.last_info {
                Some(i) => i@,
                None => "Ready"@,
            },
        }
    }
}

/// The status text is drawn in the error colour exactly when an error
/// message is being shown.
pub open spec fn spec_status_is_error(app: App) -> bool {
    !app.is_fetching && !app.is_loading_groups && app.last_error is Some
}

/// The text and error flag the status bar renders this frame.
pub fn compute_status(app: &App) -> (r: (String, bool))
    ensures
        r.0@ == spec_status_text(*app),
        r.1 == spec_status_is_error(*app),
{
    if app.is_fetching {
        (String::from_str("Fetching logs…"), false)
    } else if app.is_loading_groups {
        (String::from_str("Loading log groups…"), false)
    } else {
        match &app.last_error {
            Some(err) => {
                let n = err.as_str().unicode_len();
                let mut s = String::from_str("Error: ");
                if n > 61 {
                    let head = err.as_str().substring_char(0, 58);
                    s.append(head);
                    s.append("…");
                } else {
                    s.append(err.as_str());
                }
                (s, true)
            },
            None => match &app.last_info {
                Some(info) => (info.clone(), false),
                None => (String::from_str("Ready"), false),
            },
        }
    }
}

/// An error message that points at expired credentials, for which the
/// status bar shows a re-login hint.
pub fn needs_auth_hint(err: &str) -> (r: bool)
    ensures
        r == (spec_contains(err@, "ExpiredTokenException"@) || spec_contains(
            err@,
            "The security token included in the request is expired"@,
        )),
{
    contains_substring(err, "ExpiredTokenException") || contains_substring(
        err,
        "The security token included in the request is expired",
    )
}

} // verus!
