//! The application state machine: per-frame polling of pending replies, the
//! tail timer, and the issuing of fetch and list-groups requests.

use crate::aws::{AwsLogError, LogEntry};
use crate::state::{ActiveView, LogsViewState, Theme};
use crate::text::{spec_trim, trim_str};
use crate::worker::{reply_channel, poll_channel, ChannelPoll, WorkerHandle, WorkerRequest};
use vstd::prelude::*;
use vstd::string::StringExecFns;

verus! {

/// The lookback used by the manual fetch button and by the tail timer, in
/// seconds: five minutes.
pub const FETCH_LOOKBACK_SECS: u64 = 300;

/// The whole per-window state: the view record the widgets edit, the status
/// message, the two pending-reply handles with their in-flight flags, and
/// the worker handle requests go out on.
pub struct App {
    pub view: ActiveView,
    pub logs_view: LogsViewState,
    pub should_close: bool,
    pub last_error: Option<String>,
    pub last_info: Option<String>,
    pub is_fetching: bool,
    pub fetch_rx: Option<std::sync::mpsc::Receiver<Result<Vec<LogEntry>, AwsLogError>>>,
    pub groups_rx: Option<std::sync::mpsc::Receiver<Result<Vec<String>, AwsLogError>>>,
    pub worker: WorkerHandle,
    pub theme: Theme,
    pub is_loading_groups: bool,
}

/// The fresh view state every window starts from.
pub open spec fn spec_default_logs_view(s: LogsViewState) -> bool {
    s.profile@ == "form"@ && s.region@ == "eu-west-1"@ && s.log_group@ == Seq::<char>::empty()
        && s.filter_text@ == Seq::<char>::empty() && !s.tail_mode && !s.show_local_time
        && s.entries@ == Seq::<LogEntry>::empty() && s.available_groups@ == Seq::<String>::empty()
        && s.selected_group_index is None && s.tail_interval_secs == 5 && s.last_tail_instant
        is None
}

impl App {
    /// The state invariants: each in-flight flag is set exactly while the
    /// matching reply handle is held, and the group selection stays in
    /// bounds.
    pub open spec fn wf(&self) -> bool {
        (self.is_fetching <==> self.fetch_rx is Some) && (self.is_loading_groups
            <==> self.groups_rx is Some) && (match self.logs_view.selected_group_index {
            Some(i) => i < self.logs_view.available_groups.len(),
            None => true,
        })
    }

    /// A fresh window: default view state, dark theme, nothing pending.
    pub fn new(worker: WorkerHandle) -> (a: App)
        ensures
            a.view == ActiveView::Logs,
            spec_default_logs_view(a.logs_view),
            !a.should_close,
            a.last_error is None,
            a.last_info is None,
            !a.is_fetching,
            a.fetch_rx is None,
            a.groups_rx is None,
            a.worker == worker,
            a.theme == Theme::Dark,
            !a.is_loading_groups,
            a.wf(),
    {
        App {
            view: ActiveView::Logs,
            logs_view: LogsViewState::new_default(),
            should_close: false,
            last_error: None,
            last_info: None,
            is_fetching: false,
            fetch_rx: None,
            groups_rx: None,
            worker,
            theme: Theme::Dark,
            is_loading_groups: false,
        }
    }
}

/// The fields that no request or poll transition touches: the active view,
/// the close flag, the info message, the worker handle and the theme.
pub open spec fn chrome_eq(pre: App, post: App) -> bool {
    post.view == pre.view && post.should_close == pre.should_close && post.last_info
        == pre.last_info && post.worker == pre.worker && post.theme == pre.theme
}

/// Normalize an optional request field: empty after trimming means "use the
/// default" (absence); anything else is passed through untrimmed.
pub fn normalize_field(s: &String) -> (r: Option<String>)
    ensures
        spec_trim(s@).len() == 0 ==> r is None,
        spec_trim(s@).len() > 0 ==> (r matches Some(v) && v@ == s@),
{
    if trim_str(s.as_str()).is_empty() {
        None
    } else {
        Some(s.clone())
    }
}

/// What one fetch poll outcome does to the state: a successful reply
/// replaces the entry list wholesale and clears the stale error, a failed
/// one records its message, no reply leaves everything in place, and a dead
/// worker silently stops the wait. In every case that ends the wait, the
/// handle is dropped and the flag cleared together.
pub open spec fn fetch_outcome_spec(
    pre: App,
    outcome: ChannelPoll<Result<Vec<LogEntry>, AwsLogError>>,
    post: App,
) -> bool {
    match outcome {
        ChannelPoll::Received(res) => match res {
            Ok(entries) => post.logs_view == LogsViewState {
                entries: entries,
                ..pre.logs_view
            } && !post.is_fetching && post.fetch_rx is None && post.last_error is None
                && post.groups_rx == pre.groups_rx && post.is_loading_groups
                == pre.is_loading_groups && chrome_eq(pre, post),
            Err(e) => (post.last_error matches Some(m) && m@ == e.spec_message())
                && post.logs_view == pre.logs_view && !post.is_fetching && post.fetch_rx is None
                && post.groups_rx == pre.groups_rx && post.is_loading_groups
                == pre.is_loading_groups && chrome_eq(pre, post),
        },
        ChannelPoll::Empty => post == pre,
        ChannelPoll::Disconnected => !post.is_fetching && post.fetch_rx is None && post.logs_view
            == pre.logs_view && post.last_error == pre.last_error && post.groups_rx
            == pre.groups_rx && post.is_loading_groups == pre.is_loading_groups && chrome_eq(
            pre,
            post,
        ),
    }
}

/// What one list-groups poll outcome does to the state: a successful reply
/// replaces the group list and keeps the selection only where it is still a
/// valid index; a failed one records its message and leaves the list alone;
/// no reply changes nothing; a dead worker stops the wait silently.
pub open spec fn groups_outcome_spec(
    pre: App,
    outcome: ChannelPoll<Result<Vec<String>, AwsLogError>>,
    post: App,
) -> bool {
    match outcome {
        ChannelPoll::Received(res) => match res {
            Ok(groups) => post.logs_view == LogsViewState {
                available_groups: groups,
                selected_group_index: (match pre.logs_view.selected_group_index {
                    Some(i) => if i < groups@.len() {
                        Some(i)
                    } else {
                        None
                    },
                    None => None,
                }),
                ..pre.logs_view
            } && !post.is_loading_groups && post.groups_rx is None && post.last_error is None
                && post.fetch_rx == pre.fetch_rx && post.is_fetching == pre.is_fetching
                && chrome_eq(pre, post),
            Err(e) => (post.last_error matches Some(m) && m@ == e.spec_message())
                && post.logs_view == pre.logs_view && !post.is_loading_groups && post.groups_rx
                is None && post.fetch_rx == pre.fetch_rx && post.is_fetching == pre.is_fetching
                && chrome_eq(pre, post),
        },
        ChannelPoll::Empty => post == pre,
        ChannelPoll::Disconnected => !post.is_loading_groups && post.groups_rx is None
            && post.logs_view == pre.logs_view && post.last_error == pre.last_error
            && post.fetch_rx == pre.fetch_rx && post.is_fetching == pre.is_fetching && chrome_eq(
            pre,
            post,
        ),
    }
}

/// What issuing a fetch does: a no-op while one is already in flight; a
/// validation error when the trimmed group name is empty; otherwise the
/// trimmed name is written back, the error cleared, and a fresh reply handle
/// held with the in-flight flag set.
pub open spec fn start_fetch_spec(pre: App, post: App) -> bool {
    if pre.is_fetching {
        post == pre
    } else if spec_trim(pre.logs_view.log_group@).len() == 0 {
        (post.last_error matches Some(m) && m@ == "Please select a log group."@) && post.logs_view
            == pre.logs_view && post.is_fetching == pre.is_fetching && post.fetch_rx
            == pre.fetch_rx && post.groups_rx == pre.groups_rx && post.is_loading_groups
            == pre.is_loading_groups && chrome_eq(pre, post)
    } else {
        post.is_fetching && post.fetch_rx is Some && post.last_error is None && post.logs_view
            == LogsViewState { log_group: post.logs_view.log_group, ..pre.logs_view }
            && post.logs_view.log_group@ == spec_trim(pre.logs_view.log_group@) && post.groups_rx
            == pre.groups_rx && post.is_loading_groups == pre.is_loading_groups && chrome_eq(
            pre,
            post,
        )
    }
}

/// What issuing a list-groups request does: the list and selection are
/// cleared at once, the error cleared, and a fresh reply handle held with
/// its in-flight flag set.
pub open spec fn start_load_groups_spec(pre: App, post: App) -> bool {
    post.logs_view == LogsViewState {
        available_groups: post.logs_view.available_groups,
        selected_group_index: None,
        ..pre.logs_view
    } && post.logs_view.available_groups@ == Seq::<String>::empty() && post.last_error is None
        && post.is_loading_groups && post.groups_rx is Some && post.fetch_rx == pre.fetch_rx
        && post.is_fetching == pre.is_fetching && chrome_eq(pre, post)
}

/// Whole seconds elapsed between two monotonic-clock readings in
/// milliseconds; a clock that appears to run backwards counts as no time
/// passed.
pub open spec fn spec_elapsed_secs(last: u64, now: u64) -> int {
    if now >= last {
        (now - last) / 1000
    } else {
        0
    }
}

/// The tail timer is due: either it has never fired since tail mode was
/// enabled, or at least the configured interval has elapsed.
pub open spec fn tail_due(pre: App, now_millis: u64) -> bool {
    match pre.logs_view.last_tail_instant {
        Some(last) => spec_elapsed_secs(last, now_millis) >= pre.logs_view.tail_interval_secs,
        None => true,
    }
}

/// `post` is `mid` with the tail trigger time set to `now_millis`.
pub open spec fn with_tail_marker(mid: App, post: App, now_millis: u64) -> bool {
    post.logs_view == LogsViewState {
        last_tail_instant: Some(now_millis),
        ..mid.logs_view
    } && post.last_error == mid.last_error && post.is_fetching == mid.is_fetching && post.fetch_rx
        == mid.fetch_rx && post.groups_rx == mid.groups_rx && post.is_loading_groups
        == mid.is_loading_groups && chrome_eq(mid, post)
}

/// What one tail-timer evaluation does: with tail mode on and no fetch in
/// flight, a due timer performs exactly one fetch issue and records the
/// trigger time, an undue one changes nothing; with tail mode off the
/// marker is cleared; with a fetch already in flight nothing happens.
pub open spec fn tail_tick_spec(pre: App, now_millis: u64, post: App) -> bool {
    if pre.logs_view.tail_mode && !pre.is_fetching {
        if tail_due(pre, now_millis) {
            exists|mid: App| start_fetch_spec(pre, mid) && with_tail_marker(mid, post, now_millis)
        } else {
            post == pre
        }
    } else if !pre.logs_view.tail_mode {
        post.logs_view == LogsViewState { last_tail_instant: None, ..pre.logs_view }
            && post.last_error == pre.last_error && post.is_fetching == pre.is_fetching
            && post.fetch_rx == pre.fetch_rx && post.groups_rx == pre.groups_rx
            && post.is_loading_groups == pre.is_loading_groups && chrome_eq(pre, post)
    } else {
        post == pre
    }
}

impl App {
    /// Merge one fetch poll outcome into the state.
    pub fn apply_fetch_outcome(&mut self, outcome: ChannelPoll<Result<Vec<LogEntry>, AwsLogError>>)
        ensures
            fetch_outcome_spec(*old(self), outcome, *final(self)),
    {
        match outcome {
            ChannelPoll::Received(res) => match res {
                Ok(entries) => {
                    self.logs_view.entries = entries;
                    self.is_fetching = false;
                    self.fetch_rx = None;
                    self.last_error = None;
                },
                Err(err) => {
                    self.last_error = Some(err.message_string());
                    self.is_fetching = false;
                    self.fetch_rx = None;
                },
            },
            ChannelPoll::Empty => {},
            ChannelPoll::Disconnected => {
                self.is_fetching = false;
                self.fetch_rx = None;
            },
        }
    }

    /// Merge one list-groups poll outcome into the state.
    pub fn apply_groups_outcome(&mut self, outcome: ChannelPoll<Result<Vec<String>, AwsLogError>>)
        ensures
            groups_outcome_spec(*old(self), outcome, *final(self)),
    {
        match outcome {
            ChannelPoll::Received(res) => match res {
                Ok(groups) => {
                    self.logs_view.available_groups = groups;
                    match self.logs_view.selected_group_index {
                        Some(idx) => {
                            if idx >= self.logs_view.available_groups.len() {
                                self.logs_view.selected_group_index = None;
                            }
                        },
                        None => {},
                    }
                    self.groups_rx = None;
                    self.is_loading_groups = false;
                    self.last_error = None;
                },
                Err(err) => {
                    self.last_error = Some(err.message_string());
                    self.groups_rx = None;
                    self.is_loading_groups = false;
                },
            },
            ChannelPoll::Empty => {},
            ChannelPoll::Disconnected => {
                self.groups_rx = None;
                self.is_loading_groups = false;
            },
        }
    }

    /// Poll the pending fetch, if any, without blocking, and merge whatever
    /// outcome the channel reports.
    pub fn poll_fetch_result(&mut self)
        ensures
            old(self).fetch_rx is None ==> *final(self) == *old(self),
            exists|o: ChannelPoll<Result<Vec<LogEntry>, AwsLogError>>|
                fetch_outcome_spec(*old(self), o, *final(self)),
    {
        let outcome = match &self.fetch_rx {
            Some(rx) => poll_channel(rx),
            None => {
                proof {
                    assert(fetch_outcome_spec(
                        *self,
                        ChannelPoll::<Result<Vec<LogEntry>, AwsLogError>>::Empty,
                        *self,
                    ));
                }
                return ;
            },
        };
        self.apply_fetch_outcome(outcome);
    }

    /// Poll the pending list-groups request, if any, without blocking, and
    /// merge whatever outcome the channel reports.
    pub fn poll_groups_result(&mut self)
        ensures
            old(self).groups_rx is None ==> *final(self) == *old(self),
            exists|o: ChannelPoll<Result<Vec<String>, AwsLogError>>|
                groups_outcome_spec(*old(self), o, *final(self)),
    {
        let outcome = match &self.groups_rx {
            Some(rx) => poll_channel(rx),
            None => {
                proof {
                    assert(groups_outcome_spec(
                        *self,
                        ChannelPoll::<Result<Vec<String>, AwsLogError>>::Empty,
                        *self,
                    ));
                }
                return ;
            },
        };
        self.apply_groups_outcome(outcome);
    }

    /// Issue a fetch for the last `lookback_secs` seconds of the chosen
    /// group, unless one is already in flight or the group name is blank.
    pub fn start_fetch_logs(&mut self, lookback_secs: u64)
        ensures
            start_fetch_spec(*old(self), *final(self)),
    {
        if self.is_fetching {
            return ;
        }
        let trimmed = String::from_str(trim_str(self.logs_view.log_group.as_str()));
        if trimmed.as_str().is_empty() {
            self.last_error = Some(String::from_str("Please select a log group."));
            return ;
        }
        self.logs_view.log_group = trimmed;
        self.is_fetching = true;
        self.last_error = None;
        let (tx, rx) = reply_channel::<Result<Vec<LogEntry>, AwsLogError>>();
        let req = WorkerRequest::FetchRecentLogs {
            profile: normalize_field(&self.logs_view.profile),
            region: normalize_field(&self.logs_view.region),
            log_group: self.logs_view.log_group.clone(),
            filter_pattern: normalize_field(&self.logs_view.filter_text),
            lookback_secs,
            limit: 1000,
            respond_to: tx,
        };
        self.worker.send(req);
        self.fetch_rx = Some(rx);
    }

    /// Issue a list-groups request, clearing the current list and selection
    /// up front.
    pub fn start_load_log_groups(&mut self)
        ensures
            start_load_groups_spec(*old(self), *final(self)),
    {
        self.logs_view.available_groups.clear();
        self.logs_view.selected_group_index = None;
        self.last_error = None;
        self.is_loading_groups = true;
        let (tx, rx) = reply_channel::<Result<Vec<String>, AwsLogError>>();
        let req = WorkerRequest::ListLogGroups {
            profile: normalize_field(&self.logs_view.profile),
            region: normalize_field(&self.logs_view.region),
            limit: 50,
            respond_to: tx,
        };
        self.worker.send(req);
        self.groups_rx = Some(rx);
    }

    /// Pick a group from the loaded list; an out-of-bounds index changes
    /// nothing.
    pub fn select_group(&mut self, idx: usize)
        ensures
            idx < old(self).logs_view.available_groups.len() ==> final(self).logs_view
                == (LogsViewState {
                selected_group_index: Some(idx),
                log_group: final(self).logs_view.log_group,
                ..old(self).logs_view
            }) && final(self).logs_view.log_group
                == old(self).logs_view.available_groups[idx as int],
            idx >= old(self).logs_view.available_groups.len() ==> final(self).logs_view == old(self).logs_view,
            final(self).view == old(self).view,
            final(self).should_close == old(self).should_close,
            final(self).last_error == old(self).last_error,
            final(self).last_info == old(self).last_info,
            final(self).is_fetching == old(self).is_fetching,
            final(self).fetch_rx == old(self).fetch_rx,
            final(self).groups_rx == old(self).groups_rx,
            final(self).worker == old(self).worker,
            final(self).theme == old(self).theme,
            final(self).is_loading_groups == old(self).is_loading_groups,
    {
        if idx < self.logs_view.available_groups.len() {
            self.logs_view.selected_group_index = Some(idx);
            self.logs_view.log_group = self.logs_view.available_groups[idx].clone();
        }
    }

    /// Evaluate the tail timer for this frame. With tail mode on and no
    /// fetch in flight, a due timer issues a fetch with the fixed five-minute
    /// lookback and records `now_millis` as the trigger time; with tail mode
    /// off, the marker is cleared so that re-enabling fires at once.
    pub fn tail_tick(&mut self, now_millis: u64)
        ensures
            tail_tick_spec(*old(self), now_millis, *final(self)),
    {
        if self.logs_view.tail_mode && !self.is_fetching {
            let due = match self.logs_view.last_tail_instant {
                Some(last) => {
                    let elapsed_secs: u64 = if now_millis >= last {
                        (now_millis - last) / 1000
                    } else {
                        0
                    };
                    elapsed_secs >= self.logs_view.tail_interval_secs
                },
                None => true,
            };
            if due {
                self.start_fetch_logs(FETCH_LOOKBACK_SECS);
                let ghost mid = *self;
                self.logs_view.last_tail_instant = Some(now_millis);
                proof {
                    assert(start_fetch_spec(*old(self), mid) && with_tail_marker(
                        mid,
                        *self,
                        now_millis,
                    ));
                }
            }
        } else if !self.logs_view.tail_mode {
            self.logs_view.last_tail_instant = None;
        }
    }

    /// Ask the window to close; the tray or the close button calls this.
    pub fn request_close(&mut self)
        ensures
            final(self).should_close,
            *final(self) == (App { should_close: true, ..*old(self) }),
    {
        self.should_close = true;
    }
}

/// Polling a reply channel that holds nothing yet leaves the whole state
/// unchanged, however often it is repeated.
pub proof fn lemma_fetch_poll_empty_is_noop(pre: App, post: App)
    requires
        fetch_outcome_spec(pre, ChannelPoll::Empty, post),
    ensures
        post == pre,
{
}

/// Polling a quiet list-groups channel leaves the whole state unchanged,
/// however often it is repeated.
pub proof fn lemma_groups_poll_empty_is_noop(pre: App, post: App)
    requires
        groups_outcome_spec(pre, ChannelPoll::Empty, post),
    ensures
        post == pre,
{
}

/// Every fetch poll outcome preserves the state invariants: the in-flight
/// flags keep tracking the held handles and the selection stays in bounds.
pub proof fn lemma_fetch_outcome_preserves_wf(
    pre: App,
    outcome: ChannelPoll<Result<Vec<LogEntry>, AwsLogError>>,
    post: App,
)
    requires
        pre.wf(),
        fetch_outcome_spec(pre, outcome, post),
    ensures
        post.wf(),
{
}

/// Every list-groups poll outcome preserves the state invariants; in
/// particular a refreshed list keeps the selection only where it is still a
/// valid index.
pub proof fn lemma_groups_outcome_preserves_wf(
    pre: App,
    outcome: ChannelPoll<Result<Vec<String>, AwsLogError>>,
    post: App,
)
    requires
        pre.wf(),
        groups_outcome_spec(pre, outcome, post),
    ensures
        post.wf(),
{
}

/// Issuing a fetch preserves the state invariants.
pub proof fn lemma_start_fetch_preserves_wf(pre: App, post: App)
    requires
        pre.wf(),
        start_fetch_spec(pre, post),
    ensures
        post.wf(),
{
}

/// Issuing a list-groups request preserves the state invariants.
pub proof fn lemma_start_load_preserves_wf(pre: App, post: App)
    requires
        pre.wf(),
        start_load_groups_spec(pre, post),
    ensures
        post.wf(),
{
}

/// One tail-timer evaluation preserves the state invariants.
pub proof fn lemma_tail_tick_preserves_wf(pre: App, now_millis: u64, post: App)
    requires
        pre.wf(),
        tail_tick_spec(pre, now_millis, post),
    ensures
        post.wf(),
{
    if pre.logs_view.tail_mode && !pre.is_fetching && tail_due(pre, now_millis) {
        let mid = choose|mid: App|
            start_fetch_spec(pre, mid) && with_tail_marker(mid, post, now_millis);
        lemma_start_fetch_preserves_wf(pre, mid);
    }
}

} // verus!
