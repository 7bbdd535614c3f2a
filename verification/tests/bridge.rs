//! Scenario tests that drive the application state machine against a stub
//! service sitting on the worker's own channels.

use lumberjack_axe::app::App;
use lumberjack_axe::aws::{AwsLogError, LogEntry};
use lumberjack_axe::worker::{ChannelPoll, WorkerHandle, WorkerRequest};
use std::sync::mpsc::channel;

fn app_with_stub() -> (App, std::sync::mpsc::Receiver<WorkerRequest>) {
    let (wtx, wrx) = channel::<WorkerRequest>();
    (App::new(WorkerHandle::new(wtx)), wrx)
}

fn entry(ts: i64, msg: &str) -> LogEntry {
    LogEntry { timestamp_millis: ts, message: msg.to_string(), log_stream_name: None }
}

#[test]
fn worker_request_fetch_recent_logs_can_be_constructed() {
    let (tx, _rx) = channel::<Result<Vec<LogEntry>, AwsLogError>>();

    let req = WorkerRequest::FetchRecentLogs {
        profile: Some("form".to_string()),
        region: Some("eu-west-1".to_string()),
        log_group: "/aws/ecs/containerinsights/Form-production/performance".to_string(),
        filter_pattern: Some("ERROR".to_string()),
        lookback_secs: 300,
        limit: 1000,
        respond_to: tx,
    };

    match req {
        WorkerRequest::FetchRecentLogs { .. } => {}
        _ => panic!("Expected FetchRecentLogs variant"),
    }
}

#[test]
fn worker_request_list_log_groups_can_be_constructed() {
    let (tx, _rx) = channel::<Result<Vec<String>, AwsLogError>>();

    let req = WorkerRequest::ListLogGroups {
        profile: Some("form".to_string()),
        region: Some("eu-west-1".to_string()),
        limit: 50,
        respond_to: tx,
    };

    match req {
        WorkerRequest::ListLogGroups { .. } => {}
        _ => panic!("Expected ListLogGroups variant"),
    }
}

#[test]
fn fetch_round_trip_merges_entries_in_order() {
    let (mut app, wrx) = app_with_stub();
    app.logs_view.log_group = "/my/group".to_string();
    app.last_error = Some("stale".to_string());
    app.start_fetch_logs(300);
    assert!(app.is_fetching);

    let req = wrx.try_recv().expect("a request should have been sent");
    match req {
        WorkerRequest::FetchRecentLogs {
            profile,
            region,
            log_group,
            filter_pattern,
            lookback_secs,
            limit,
            respond_to,
        } => {
            assert_eq!(profile, Some("form".to_string()));
            assert_eq!(region, Some("eu-west-1".to_string()));
            assert_eq!(log_group, "/my/group");
            assert_eq!(filter_pattern, None);
            assert_eq!(lookback_secs, 300);
            assert_eq!(limit, 1000);
            respond_to
                .send(Ok(vec![entry(1, "one"), entry(2, "two")]))
                .expect("reply channel should be open");
        }
        _ => panic!("expected a fetch request"),
    }

    app.poll_fetch_result();
    assert!(!app.is_fetching);
    assert!(app.fetch_rx.is_none());
    assert_eq!(app.logs_view.entries.len(), 2);
    assert_eq!(app.logs_view.entries[0].message, "one");
    assert_eq!(app.logs_view.entries[1].message, "two");
    assert_eq!(app.last_error, None);
}

#[test]
fn polling_quiet_channel_changes_nothing() {
    let (mut app, wrx) = app_with_stub();
    app.logs_view.log_group = "/g".to_string();
    app.start_fetch_logs(300);
    // Hold the request so its reply sender stays alive, but answer nothing.
    let pending = wrx.try_recv().expect("request sent");
    assert!(app.is_fetching);

    app.poll_fetch_result();
    app.poll_fetch_result();
    app.poll_fetch_result();

    assert!(app.is_fetching);
    assert!(app.fetch_rx.is_some());
    assert!(app.logs_view.entries.is_empty());
    assert_eq!(app.last_error, None);
    drop(pending);
}

#[test]
fn fetch_failure_records_error_and_keeps_entries() {
    let (mut app, wrx) = app_with_stub();
    app.logs_view.log_group = "/g".to_string();
    app.logs_view.entries = vec![entry(1, "old")];
    app.start_fetch_logs(300);

    match wrx.try_recv().expect("request sent") {
        WorkerRequest::FetchRecentLogs { respond_to, .. } => {
            respond_to
                .send(Err(AwsLogError::CloudWatch {
                    log_group: "/g".to_string(),
                    source: "boom".to_string(),
                }))
                .expect("reply channel should be open");
        }
        _ => panic!("expected a fetch request"),
    }

    app.poll_fetch_result();
    assert!(!app.is_fetching);
    let err = app.last_error.clone().expect("error recorded");
    assert_eq!(err, "CloudWatch Logs request failed for log group \"/g\": boom");
    // The old entries stay until a successful fetch replaces them.
    assert_eq!(app.logs_view.entries.len(), 1);
}

#[test]
fn worker_death_stops_waiting_silently() {
    let (mut app, wrx) = app_with_stub();
    app.logs_view.log_group = "/g".to_string();
    app.start_fetch_logs(300);
    // Drop the request without replying: the reply sender dies with it.
    drop(wrx.try_recv().expect("request sent"));

    app.poll_fetch_result();
    assert!(!app.is_fetching);
    assert!(app.fetch_rx.is_none());
    assert_eq!(app.last_error, None);
}

#[test]
fn blank_log_group_is_rejected_before_sending() {
    let (mut app, wrx) = app_with_stub();
    app.logs_view.log_group = "   ".to_string();
    app.start_fetch_logs(300);

    assert!(!app.is_fetching);
    assert_eq!(app.last_error, Some("Please select a log group.".to_string()));
    assert!(wrx.try_recv().is_err(), "no request may be sent for a blank group");
}

#[test]
fn fetch_trims_group_normalizes_fields_and_guards_reentry() {
    let (mut app, wrx) = app_with_stub();
    app.logs_view.log_group = "  /g  ".to_string();
    app.logs_view.profile = "".to_string();
    app.logs_view.region = "   ".to_string();
    app.logs_view.filter_text = "ERROR".to_string();
    app.start_fetch_logs(300);

    // The trimmed name is written back for the UI.
    assert_eq!(app.logs_view.log_group, "/g");
    match wrx.try_recv().expect("request sent") {
        WorkerRequest::FetchRecentLogs { profile, region, log_group, filter_pattern, .. } => {
            assert_eq!(profile, None);
            assert_eq!(region, None);
            assert_eq!(log_group, "/g");
            assert_eq!(filter_pattern, Some("ERROR".to_string()));
        }
        _ => panic!("expected a fetch request"),
    }

    // A second attempt while one is in flight is a silent no-op.
    app.start_fetch_logs(300);
    assert!(wrx.try_recv().is_err(), "the in-flight guard must hold back a second request");
}

#[test]
fn start_load_clears_list_and_sends_capped_request() {
    let (mut app, wrx) = app_with_stub();
    app.logs_view.available_groups = vec!["old".to_string()];
    app.logs_view.selected_group_index = Some(0);
    app.start_load_log_groups();

    assert!(app.logs_view.available_groups.is_empty(), "the list is cleared optimistically");
    assert_eq!(app.logs_view.selected_group_index, None);
    assert!(app.is_loading_groups);

    match wrx.try_recv().expect("request sent") {
        WorkerRequest::ListLogGroups { profile, region, limit, respond_to } => {
            assert_eq!(profile, Some("form".to_string()));
            assert_eq!(region, Some("eu-west-1".to_string()));
            assert_eq!(limit, 50);
            respond_to
                .send(Ok(vec!["g1".to_string(), "g2".to_string()]))
                .expect("reply channel should be open");
        }
        _ => panic!("expected a list-groups request"),
    }

    app.poll_groups_result();
    assert!(!app.is_loading_groups);
    assert_eq!(app.logs_view.available_groups, vec!["g1".to_string(), "g2".to_string()]);
    assert_eq!(app.last_error, None);
}

#[test]
fn group_refresh_revalidates_selection() {
    let (mut app, _wrx) = app_with_stub();
    // Selection out of bounds after the refresh: cleared.
    app.logs_view.available_groups =
        vec!["a".to_string(), "b".to_string(), "c".to_string()];
    app.logs_view.selected_group_index = Some(2);
    app.apply_groups_outcome(ChannelPoll::Received(Ok(vec!["x".to_string(), "y".to_string()])));
    assert_eq!(app.logs_view.selected_group_index, None);

    // Selection still valid: preserved.
    app.logs_view.selected_group_index = Some(1);
    app.apply_groups_outcome(ChannelPoll::Received(Ok(vec![
        "p".to_string(),
        "q".to_string(),
        "r".to_string(),
    ])));
    assert_eq!(app.logs_view.selected_group_index, Some(1));
    assert_eq!(app.logs_view.available_groups.len(), 3);
}

#[test]
fn list_groups_failure_sets_error_and_keeps_list() {
    let (mut app, _wrx) = app_with_stub();
    app.logs_view.available_groups = vec!["kept-a".to_string(), "kept-b".to_string()];
    // A pending list-groups operation, as if issued earlier.
    let (gtx, grx) = channel();
    app.groups_rx = Some(grx);
    app.is_loading_groups = true;

    gtx.send(Err(AwsLogError::ListLogGroups {
        region: "eu-west-1".to_string(),
        message: "denied".to_string(),
    }))
    .expect("reply channel should be open");

    app.poll_groups_result();
    assert!(!app.is_loading_groups);
    assert!(app.groups_rx.is_none());
    let err = app.last_error.clone().expect("error recorded");
    assert_eq!(err, "failed to list CloudWatch log groups in region eu-west-1: denied");
    // The failure path leaves the list alone; only a request start clears it.
    assert_eq!(
        app.logs_view.available_groups,
        vec!["kept-a".to_string(), "kept-b".to_string()]
    );
}

#[test]
fn tail_fires_on_interval_boundary() {
    let (mut app, wrx) = app_with_stub();
    app.logs_view.log_group = "/g".to_string();
    app.logs_view.tail_mode = true;
    app.logs_view.tail_interval_secs = 5;

    // Never fired since tail was enabled: due immediately.
    app.tail_tick(10_000);
    match wrx.try_recv().expect("first tail fetch") {
        WorkerRequest::FetchRecentLogs { lookback_secs, respond_to, .. } => {
            assert_eq!(lookback_secs, 300, "tail uses the fixed five-minute lookback");
            respond_to.send(Ok(vec![])).expect("reply channel should be open");
        }
        _ => panic!("expected a fetch request"),
    }
    app.poll_fetch_result();
    assert!(!app.is_fetching);

    // 4.9 seconds after the trigger: nothing fires.
    app.tail_tick(14_900);
    assert!(wrx.try_recv().is_err(), "4.9s must not reach the 5s interval");
    assert!(!app.is_fetching);

    // 5.0 seconds after the trigger: exactly one fetch.
    app.tail_tick(15_000);
    assert!(app.is_fetching);
    let second = wrx.try_recv().expect("second tail fetch");
    assert!(wrx.try_recv().is_err(), "exactly one fetch per due tick");
    drop(second);
}

#[test]
fn disabling_tail_resets_the_trigger_marker() {
    let (mut app, wrx) = app_with_stub();
    app.logs_view.log_group = "/g".to_string();
    app.logs_view.tail_mode = true;
    app.tail_tick(10_000);
    assert_eq!(app.logs_view.last_tail_instant, Some(10_000));
    drop(wrx.try_recv().expect("tail fetch sent"));

    app.logs_view.tail_mode = false;
    app.tail_tick(12_000);
    assert_eq!(app.logs_view.last_tail_instant, None, "re-enabling must fire immediately");
}

#[test]
fn fetch_success_clears_stale_error() {
    let (mut app, _wrx) = app_with_stub();
    app.last_error = Some("stale".to_string());
    app.is_fetching = true;
    let (ftx, frx) = channel();
    app.fetch_rx = Some(frx);
    ftx.send(Ok(vec![])).expect("reply channel should be open");

    app.poll_fetch_result();
    assert_eq!(app.last_error, None);
    assert!(!app.is_fetching);
}

#[test]
fn select_group_sets_name_and_ignores_bad_index() {
    let (mut app, _wrx) = app_with_stub();
    app.logs_view.available_groups = vec!["a".to_string(), "b".to_string()];
    app.select_group(1);
    assert_eq!(app.logs_view.selected_group_index, Some(1));
    assert_eq!(app.logs_view.log_group, "b");

    app.select_group(5);
    assert_eq!(app.logs_view.selected_group_index, Some(1));
    assert_eq!(app.logs_view.log_group, "b");
}

#[test]
fn request_close_sets_the_flag() {
    let (mut app, _wrx) = app_with_stub();
    assert!(!app.should_close);
    app.request_close();
    assert!(app.should_close);
}
