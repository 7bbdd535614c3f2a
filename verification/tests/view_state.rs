//! Tests for the view state record and the presentation helpers: defaults,
//! timestamp rendering, JSON pretty-printing, status text and entry logic.

use lumberjack_axe::app::{normalize_field, App};
use lumberjack_axe::state::{format_timestamp_millis, try_pretty_json, LogsViewState, Theme};
use lumberjack_axe::status_bar::{compute_status, needs_auth_hint};
use lumberjack_axe::tray::{TrayConfig, TrayError, TrayEvent};
use lumberjack_axe::ui_logs::{entry_header, entry_visible, message_level, LogLevel};
use lumberjack_axe::worker::{WorkerHandle, WorkerRequest};

fn stub_app() -> App {
    let (tx, _rx) = std::sync::mpsc::channel::<WorkerRequest>();
    App::new(WorkerHandle::new(tx))
}

#[test]
fn logs_view_state_defaults_are_sensible() {
    let s = LogsViewState::new_default();

    assert_eq!(s.profile, "form");
    assert_eq!(s.region, "eu-west-1");
    assert_eq!(s.log_group, "");
    assert_eq!(s.filter_text, "");
    assert!(!s.tail_mode);
    assert!(!s.show_local_time);
    assert!(s.entries.is_empty());
    assert!(s.available_groups.is_empty());
    assert_eq!(s.selected_group_index, None);
    assert_eq!(s.tail_interval_secs, 5);
    assert!(s.last_tail_instant.is_none());
}

#[test]
fn format_timestamp_millis_handles_zero_and_positive() {
    let utc = format_timestamp_millis(0, false);
    assert_eq!(utc, "-");

    let ts = 1_700_000_000_123_i64;
    let utc = format_timestamp_millis(ts, false);
    assert!(utc.ends_with('Z'));

    let local = format_timestamp_millis(ts, true);
    assert!(!local.ends_with('Z'));
}

#[test]
fn format_timestamp_millis_renders_exact_utc_text() {
    assert_eq!(format_timestamp_millis(1_700_000_000_123, false), "2023-11-14 22:13:20.123Z");
    assert_eq!(format_timestamp_millis(-5, false), "-");
}

#[test]
fn try_pretty_json_prettifies_valid_json_and_rejects_non_json() {
    let raw = r#"{"a":1,"b":{"c":2}}"#;
    let pretty = try_pretty_json(raw).expect("should parse");
    assert!(pretty.contains("\n"));
    assert!(pretty.contains("\"a\""));
    assert!(pretty.contains("\"b\""));

    assert_eq!(try_pretty_json("not json"), None);
    assert_eq!(try_pretty_json("{not json}"), None);
}

#[test]
fn try_pretty_json_yields_exact_two_space_indentation() {
    let pretty = try_pretty_json("  {\"a\":1}  ").expect("should parse after trimming");
    assert_eq!(pretty, "{\n  \"a\": 1\n}");
    // An empty or unbracketed message never reaches the parser.
    assert_eq!(try_pretty_json("   "), None);
    assert_eq!(try_pretty_json("12"), None);
}

#[test]
fn theme_toggle_cycles_through_all_three() {
    assert_eq!(Theme::Light.next(), Theme::Dark);
    assert_eq!(Theme::Dark.next(), Theme::RetroGreen);
    assert_eq!(Theme::RetroGreen.next(), Theme::Light);
}

#[test]
fn set_tail_interval_clamps_to_valid_range() {
    let mut s = LogsViewState::new_default();
    s.set_tail_interval(0);
    assert_eq!(s.tail_interval_secs, 1);
    s.set_tail_interval(-7);
    assert_eq!(s.tail_interval_secs, 1);
    s.set_tail_interval(42);
    assert_eq!(s.tail_interval_secs, 42);
    s.set_tail_interval(1000);
    assert_eq!(s.tail_interval_secs, 300);
}

#[test]
fn compute_status_prefers_progress_then_error_then_info() {
    let mut app = stub_app();
    assert_eq!(compute_status(&app), ("Ready".to_string(), false));

    app.last_info = Some("Loaded 3 groups".to_string());
    assert_eq!(compute_status(&app), ("Loaded 3 groups".to_string(), false));

    app.last_error = Some("boom".to_string());
    assert_eq!(compute_status(&app), ("Error: boom".to_string(), true));

    app.is_loading_groups = true;
    assert_eq!(compute_status(&app), ("Loading log groups\u{2026}".to_string(), false));

    app.is_fetching = true;
    assert_eq!(compute_status(&app), ("Fetching logs\u{2026}".to_string(), false));
}

#[test]
fn compute_status_truncates_long_errors_with_ellipsis() {
    let mut app = stub_app();
    let long = "a".repeat(70);
    app.last_error = Some(long);
    let (text, is_error) = compute_status(&app);
    assert!(is_error);
    let expected = format!("Error: {}\u{2026}", "a".repeat(58));
    assert_eq!(text, expected);

    // At 61 characters the message still fits untruncated.
    app.last_error = Some("b".repeat(61));
    let (text, _) = compute_status(&app);
    assert_eq!(text, format!("Error: {}", "b".repeat(61)));
}

#[test]
fn needs_auth_hint_matches_known_expiry_substrings() {
    assert!(needs_auth_hint("... ExpiredTokenException ..."));
    assert!(needs_auth_hint("The security token included in the request is expired"));
    assert!(!needs_auth_hint("AccessDenied"));
}

#[test]
fn message_level_classifies_by_first_severity_marker() {
    assert_eq!(message_level("ERROR: it broke"), LogLevel::Error);
    assert_eq!(message_level("a WARN inside"), LogLevel::Warn);
    assert_eq!(message_level("INFO only"), LogLevel::Info);
    assert_eq!(message_level("nothing special"), LogLevel::Plain);
    // ERROR wins over the INFO later in the line.
    assert_eq!(message_level("ERROR then INFO"), LogLevel::Error);
}

#[test]
fn entry_visible_filters_case_insensitively() {
    assert!(entry_visible("", "anything at all"));
    assert!(entry_visible("ERR", "There was an eRr here"));
    assert!(entry_visible("timeout", "Request TIMEOUT after 30s"));
    assert!(!entry_visible("missing", "nothing of the sort"));
}

#[test]
fn entry_header_includes_stream_when_present() {
    assert_eq!(
        entry_header("2023-11-14 22:13:20.123Z", &Some("my-stream".to_string())),
        "[2023-11-14 22:13:20.123Z] (my-stream)"
    );
    assert_eq!(entry_header("2023-11-14 22:13:20.123Z", &None), "[2023-11-14 22:13:20.123Z]");
}

#[test]
fn normalize_field_turns_blank_into_absent() {
    assert_eq!(normalize_field(&"".to_string()), None);
    assert_eq!(normalize_field(&"   ".to_string()), None);
    assert_eq!(normalize_field(&" form ".to_string()), Some(" form ".to_string()));
}

#[test]
fn tray_types_render_their_names() {
    assert_eq!(TrayEvent::ToggleWindow.label(), "ToggleWindow");
    assert_eq!(TrayEvent::QuitRequested.label(), "QuitRequested");
    assert_eq!(TrayConfig::default().tooltip, "Lumberjack Axe");
    assert_eq!(TrayError::Unsupported.message_string(), "tray not supported on this platform");
    assert_eq!(
        TrayError::InitFailed("no display".to_string()).message_string(),
        "failed to initialize tray: no display"
    );
}
