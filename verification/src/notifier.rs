//! The per-thread status notifier: a send-only handle a worker thread uses
//! to report its own lifecycle to the controller.

use vstd::prelude::*;
use vstd::string::StringExecFns;
use crossbeam_channel::Sender;
use crate::status::Status;

verus! {

#[verifier::external_type_specification]
#[verifier::external_body]
#[verifier::reject_recursive_types(T)]
pub struct ExSender<T>(Sender<T>);

/// Relies on `crossbeam_channel::Sender::send`: enqueues the pair for the
/// channel's consumer, preserving per-sender order.  `send` only fails when
/// the receiving end was dropped; that is a lifetime-ordering bug (the
/// controller must outlive every notifier), so this handle fails loudly by
/// panicking instead of swallowing it.
#[verifier::external_body]
fn send_status(sender: &Sender<(String, Status)>, thread_name: &String, status: Status) {
    sender
        .send((thread_name.clone(), status))
        .expect("status transport receiver disconnected");
}

/// A thread status notifier, that allows a thread to notify the controller
/// of the current status of the thread.
///
/// Each call enqueues exactly one `(thread name, status)` pair, without
/// retries; events from one thread reach the controller in call order, and
/// no order across threads is guaranteed.
#[derive(Debug)]
pub struct Notifier {
    thread_name: String,
    sender: Sender<(String, Status)>,
}

impl View for Notifier {
    type V = Seq<char>;

    closed spec fn view(&self) -> Seq<char> {
        self.thread_name@
    }
}

impl Notifier {
    /// A notifier that reports as `thread_name` over `sender`.
    pub fn new(thread_name: &str, sender: Sender<(String, Status)>) -> (n: Notifier)
        ensures
            n@ == thread_name@,
    {
        Notifier { thread_name: String::from_str(thread_name), sender }
    }

    /// Notify the controller that the thread is busy processing.
    pub fn busy(&self) {
        send_status(&self.sender, &self.thread_name, Status::Busy);
    }

    /// Notify the controller to request that it and all other registered
    /// threads pause processing.
    pub fn request_pause(&self) {
        send_status(&self.sender, &self.thread_name, Status::RequestPause);
    }

    /// Notify the controller to request that it and all other registered
    /// threads resume processing.
    pub fn request_resume(&self) {
        send_status(&self.sender, &self.thread_name, Status::RequestResume);
    }

    /// Notify the controller to request that it and all other registered
    /// threads end processing.
    pub fn request_end(&self) {
        send_status(&self.sender, &self.thread_name, Status::RequestEnd);
    }

    /// Notify the controller that the thread is waiting for new data or
    /// messages to process.
    pub fn wait(&self) {
        send_status(&self.sender, &self.thread_name, Status::Waiting);
    }

    /// Notify the controller that the thread is in a permanent error state.
    pub fn error(&self, cause: String) {
        send_status(&self.sender, &self.thread_name, Status::Error(cause));
    }

    /// Notify the controller that the thread has ended processing.
    pub fn end(&self) {
        send_status(&self.sender, &self.thread_name, Status::Ended);
    }
}

} // verus!
