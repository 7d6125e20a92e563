//! The vocabulary of lifecycle signals, the aggregate run state and the
//! cooperative control signal.

use vstd::prelude::*;

verus! {

/// A lifecycle signal that a worker thread reports about itself.
///
/// Produced exclusively by worker threads through their `Notifier`; consumed
/// only by the controller.
#[derive(Debug, PartialEq, Eq)]
pub enum Status {
    /// The thread is busy processing.
    Busy,
    /// The thread is waiting for new data or messages to process.
    Waiting,
    /// The thread asks the whole system to pause processing.
    RequestPause,
    /// The thread asks the whole system to resume processing.
    RequestResume,
    /// The thread asks the whole system to end processing.
    RequestEnd,
    /// The thread is in a permanent error state; the cause is carried along.
    Error(String),
    /// The thread has ended processing.
    Ended,
}

/// Specification-level form of [`Status`], with the error cause as a
/// sequence of characters.
pub enum StatusV {
    Busy,
    Waiting,
    RequestPause,
    RequestResume,
    RequestEnd,
    Error(Seq<char>),
    Ended,
}

impl View for Status {
    type V = StatusV;

    open spec fn view(&self) -> StatusV {
        match self {
            Status::Busy => StatusV::Busy,
            Status::Waiting => StatusV::Waiting,
            Status::RequestPause => StatusV::RequestPause,
            Status::RequestResume => StatusV::RequestResume,
            Status::RequestEnd => StatusV::RequestEnd,
            Status::Error(cause) => StatusV::Error(cause@),
            Status::Ended => StatusV::Ended,
        }
    }
}

/// Returns a value equal to the given status, duplicating the carried cause.
pub fn dup_status(status: &Status) -> (r: Status)
    ensures
        r == *status,
{
    match status {
        Status::Busy => Status::Busy,
        Status::Waiting => Status::Waiting,
        Status::RequestPause => Status::RequestPause,
        Status::RequestResume => Status::RequestResume,
        Status::RequestEnd => Status::RequestEnd,
        Status::Error(cause) => Status::Error(cause.clone()),
        Status::Ended => Status::Ended,
    }
}

/// The cooperative control value that the controller publishes and that
/// worker threads poll at their own safe points.
#[derive(Debug, PartialEq, Eq, Structural, Clone, Copy)]
pub enum Signal {
    /// Workers may make progress.
    Continue,
    /// Workers should stop making progress but keep polling.
    Pause,
    /// Workers should wind down and report `Ended` as their last act.
    Stop,
}

/// The controller's single aggregate view of the whole system's run state.
#[derive(Debug, PartialEq, Eq)]
pub enum GlobalState {
    /// The controller exists but has not been started.
    Uninitialized,
    /// Workers may make progress.
    Running,
    /// At least one thread has an outstanding pause request.
    Paused,
    /// A stop was requested; the controller is draining worker threads.
    Ending,
    /// Every registered thread ended (or was detached); terminal.
    Ended,
    /// A worker reported a permanent error; the first cause is retained
    /// forever; terminal.
    Fatal(String),
}

/// Specification-level form of [`GlobalState`], with the fatal cause as a
/// sequence of characters.
pub enum GlobalStateV {
    Uninitialized,
    Running,
    Paused,
    Ending,
    Ended,
    Fatal(Seq<char>),
}

impl View for GlobalState {
    type V = GlobalStateV;

    open spec fn view(&self) -> GlobalStateV {
        match self {
            GlobalState::Uninitialized => GlobalStateV::Uninitialized,
            GlobalState::Running => GlobalStateV::Running,
            GlobalState::Paused => GlobalStateV::Paused,
            GlobalState::Ending => GlobalStateV::Ending,
            GlobalState::Ended => GlobalStateV::Ended,
            GlobalState::Fatal(cause) => GlobalStateV::Fatal(cause@),
        }
    }
}

/// `Ended` and `Fatal` are terminal: no outgoing transition is permitted
/// once either is reached.
pub open spec fn is_terminal(s: GlobalStateV) -> bool {
    s is Ended || s is Fatal
}

} // verus!
