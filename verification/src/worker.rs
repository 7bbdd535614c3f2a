//! The request side of the worker bridge: typed requests, the cloneable
//! handle that feeds the worker's queue, and the trusted boundary to the
//! standard channel primitives the bridge is built on.

use crate::aws::{AwsLogError, LogEntry};
use vstd::prelude::*;

verus! {

#[verifier::external_type_specification]
#[verifier::external_body]
#[verifier::reject_recursive_types(T)]
pub struct ExSender<T>(std::sync::mpsc::Sender<T>);

#[verifier::external_type_specification]
#[verifier::external_body]
#[verifier::reject_recursive_types(T)]
pub struct ExReceiver<T>(std::sync::mpsc::Receiver<T>);

/// The outcome of one non-blocking look at a reply channel.
pub enum ChannelPoll<T> {
    /// A value was waiting.
    Received(T),
    /// Nothing yet; the sender is still alive.
    Empty,
    /// The sending side is gone and nothing will ever arrive.
    Disconnected,
}

/// Relies on `std::sync::mpsc::Sender::clone`: the clone feeds the same
/// queue as the sender it was made from. Nothing is promised of the value
/// itself.
pub assume_specification<T>[ <std::sync::mpsc::Sender<T> as Clone>::clone ](
    s: &std::sync::mpsc::Sender<T>,
) -> std::sync::mpsc::Sender<T>;

/// Relies on `std::sync::mpsc::channel`: returns a connected
/// sender/receiver pair. What later arrives depends on what is sent, so
/// nothing is promised of the pair itself.
#[verifier::external_body]
pub(crate) fn reply_channel<T>() -> (std::sync::mpsc::Sender<T>, std::sync::mpsc::Receiver<T>) {
    std::sync::mpsc::channel()
}

/// Relies on `std::sync::mpsc::Receiver::try_recv`: a non-blocking receive
/// whose outcome depends on the sending side, so nothing is promised of it.
#[verifier::external_body]
pub(crate) fn poll_channel<T>(rx: &std::sync::mpsc::Receiver<T>) -> ChannelPoll<T> {
    match rx.try_recv() {
        Ok(v) => ChannelPoll::Received(v),
        Err(std::sync::mpsc::TryRecvError::Empty) => ChannelPoll::Empty,
        Err(std::sync::mpsc::TryRecvError::Disconnected) => ChannelPoll::Disconnected,
    }
}

/// A request for the background worker, carrying the sending half of the
/// one-shot reply channel its result goes back on.
pub enum WorkerRequest {
    /// Fetch recent logs for the given parameters, sending the result on
    /// `respond_to`.
    FetchRecentLogs {
        profile: Option<String>,
        region: Option<String>,
        log_group: String,
        filter_pattern: Option<String>,
        lookback_secs: u64,
        limit: i32,
        respond_to: std::sync::mpsc::Sender<Result<Vec<LogEntry>, AwsLogError>>,
    },
    /// List log groups for the given profile/region, sending the result on
    /// `respond_to`.
    ListLogGroups {
        profile: Option<String>,
        region: Option<String>,
        limit: i32,
        respond_to: std::sync::mpsc::Sender<Result<Vec<String>, AwsLogError>>,
    },
}

/// Handle for sending work to the worker. Clones share one queue.
#[derive(Clone)]
pub struct WorkerHandle {
    sender: std::sync::mpsc::Sender<WorkerRequest>,
}

impl WorkerHandle {
    /// Wrap the sending half of the worker's request queue.
    pub fn new(sender: std::sync::mpsc::Sender<WorkerRequest>) -> (h: WorkerHandle) {
        WorkerHandle { sender }
    }

    /// Relies on `std::sync::mpsc::Sender::send`: best-effort enqueue; when
    /// the worker is gone the request is silently dropped.
    #[verifier::external_body]
    pub fn send(&self, req: WorkerRequest) {
        let _ = self.sender.send(req);
    }
}

} // verus!
