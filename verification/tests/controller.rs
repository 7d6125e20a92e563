use rebase_core::controller::{Controller, DEFAULT_GRACE_PERIOD};
use rebase_core::registry::Registry;
use rebase_core::status::{GlobalState, Signal, Status};

fn started() -> Controller {
    let mut c = Controller::new(DEFAULT_GRACE_PERIOD);
    c.start();
    c
}

#[test]
fn fresh_controller_is_uninitialized() {
    let c = Controller::new(DEFAULT_GRACE_PERIOD);
    assert_eq!(*c.state(), GlobalState::Uninitialized);
    assert_eq!(c.signal(), Signal::Continue);
    assert_eq!(c.count_active(), 0);
}

#[test]
fn start_begins_running() {
    let c = started();
    assert_eq!(*c.state(), GlobalState::Running);
    assert_eq!(c.signal(), Signal::Continue);
}

#[test]
fn terminal_state_invariant_fatal() {
    let mut c = started();
    c.handle_event(String::from("x"), Status::Error(String::from("boom")), 1);
    assert_eq!(*c.state(), GlobalState::Fatal(String::from("boom")));
    c.handle_event(String::from("a"), Status::RequestPause, 2);
    c.handle_event(String::from("a"), Status::RequestResume, 3);
    c.handle_event(String::from("a"), Status::RequestEnd, 4);
    c.handle_event(String::from("a"), Status::Busy, 5);
    c.handle_event(String::from("a"), Status::Waiting, 6);
    assert_eq!(*c.state(), GlobalState::Fatal(String::from("boom")));
}

#[test]
fn terminal_state_invariant_ended() {
    let mut c = started();
    c.register(String::from("w"), 0);
    c.handle_event(String::from("w"), Status::RequestEnd, 1);
    c.handle_event(String::from("w"), Status::Ended, 2);
    assert_eq!(*c.state(), GlobalState::Ended);
    c.handle_event(String::from("w"), Status::RequestPause, 3);
    c.handle_event(String::from("w"), Status::RequestEnd, 4);
    assert_eq!(*c.state(), GlobalState::Ended);
}

#[test]
fn pause_is_idempotent_per_thread() {
    let mut c = started();
    c.handle_event(String::from("a"), Status::RequestPause, 1);
    c.handle_event(String::from("a"), Status::RequestPause, 2);
    assert_eq!(*c.state(), GlobalState::Paused);
    assert_eq!(c.signal(), Signal::Pause);
    assert_eq!(c.requester_count(), 1);
}

#[test]
fn resume_clears_only_when_all_requesters_resume() {
    let mut c = started();
    c.handle_event(String::from("a"), Status::RequestPause, 1);
    c.handle_event(String::from("b"), Status::RequestPause, 2);
    assert_eq!(*c.state(), GlobalState::Paused);
    c.handle_event(String::from("a"), Status::RequestResume, 3);
    assert_eq!(*c.state(), GlobalState::Paused);
    c.handle_event(String::from("b"), Status::RequestResume, 4);
    assert_eq!(*c.state(), GlobalState::Running);
    assert_eq!(c.signal(), Signal::Continue);
    assert_eq!(c.requester_count(), 0);
}

#[test]
fn resume_from_non_requester_is_a_no_op() {
    let mut c = started();
    c.handle_event(String::from("a"), Status::RequestPause, 1);
    c.handle_event(String::from("b"), Status::RequestResume, 2);
    assert_eq!(*c.state(), GlobalState::Paused);
    assert_eq!(c.requester_count(), 1);
}

#[test]
fn request_end_overrides_pause_intent() {
    let mut c = started();
    c.handle_event(String::from("a"), Status::RequestPause, 1);
    assert_eq!(*c.state(), GlobalState::Paused);
    c.handle_event(String::from("b"), Status::RequestEnd, 2);
    assert_eq!(*c.state(), GlobalState::Ending);
    assert_eq!(c.signal(), Signal::Stop);
}

#[test]
fn request_end_from_running() {
    let mut c = started();
    c.handle_event(String::from("a"), Status::RequestEnd, 1);
    assert_eq!(*c.state(), GlobalState::Ending);
    assert_eq!(c.signal(), Signal::Stop);
}

#[test]
fn first_error_cause_is_retained() {
    let mut c = started();
    c.handle_event(String::from("x"), Status::Error(String::from("disk full")), 1);
    c.handle_event(String::from("y"), Status::Error(String::from("network down")), 2);
    assert_eq!(*c.state(), GlobalState::Fatal(String::from("disk full")));
    assert_eq!(c.signal(), Signal::Stop);
    assert_eq!(c.error_log().len(), 1);
    assert_eq!(c.error_log()[0], "network down");
}

#[test]
fn end_to_end_shutdown() {
    let mut c = started();
    c.register(String::from("input"), 0);
    c.register(String::from("worker"), 0);
    assert_eq!(c.count_active(), 2);
    c.handle_event(String::from("input"), Status::Busy, 1);
    c.handle_event(String::from("worker"), Status::Waiting, 2);
    c.handle_event(String::from("worker"), Status::RequestEnd, 3);
    assert_eq!(*c.state(), GlobalState::Ending);
    assert_eq!(c.signal(), Signal::Stop);
    c.handle_event(String::from("input"), Status::Ended, 4);
    assert_eq!(*c.state(), GlobalState::Ending);
    c.handle_event(String::from("worker"), Status::Ended, 5);
    assert_eq!(*c.state(), GlobalState::Ended);
    assert_eq!(c.count_active(), 0);
}

#[test]
fn stragglers_are_detached_after_grace_period() {
    let mut c = Controller::new(100);
    c.start();
    c.register(String::from("slow"), 0);
    c.handle_event(String::from("slow"), Status::RequestEnd, 10);
    assert_eq!(*c.state(), GlobalState::Ending);
    c.handle_tick(50);
    assert_eq!(*c.state(), GlobalState::Ending);
    assert_eq!(c.count_active(), 1);
    c.handle_tick(110);
    assert_eq!(*c.state(), GlobalState::Ended);
    assert!(c.drain_complete());
    assert_eq!(c.count_active(), 0);
    assert_eq!(c.supervision_timeouts().len(), 1);
    assert_eq!(c.supervision_timeouts()[0], "slow");
}

#[test]
fn fatal_drain_keeps_fatal_state() {
    let mut c = Controller::new(100);
    c.start();
    c.register(String::from("w"), 0);
    c.handle_event(String::from("w"), Status::Error(String::from("oops")), 10);
    assert_eq!(*c.state(), GlobalState::Fatal(String::from("oops")));
    c.handle_event(String::from("w"), Status::Ended, 20);
    assert_eq!(*c.state(), GlobalState::Fatal(String::from("oops")));
    assert!(c.drain_complete());
    assert_eq!(c.count_active(), 0);
}

#[test]
fn registry_tracks_last_status() {
    let mut r = Registry::new();
    r.register(String::from("a"), 7);
    assert_eq!(r.count_active(), 1);
    let prev = r.apply(&String::from("a"), &Status::Busy, 9);
    assert_eq!(prev, Some(Status::Waiting));
    let snap = r.snapshot();
    assert_eq!(snap.len(), 1);
    assert_eq!(snap[0].name(), "a");
    assert_eq!(*snap[0].last_status(), Status::Busy);
    assert_eq!(snap[0].last_update(), 9);
    assert!(!r.all_terminal_or_ended());
    r.apply(&String::from("a"), &Status::Ended, 11);
    assert!(r.all_terminal_or_ended());
    r.retire(&String::from("a"));
    assert_eq!(r.count_active(), 0);
    assert!(r.all_terminal_or_ended());
}

#[test]
fn registering_the_same_name_twice_keeps_one_record() {
    let mut c = started();
    c.register(String::from("w"), 0);
    c.register(String::from("w"), 5);
    assert_eq!(c.count_active(), 1);
    assert_eq!(c.registry().snapshot()[0].last_update(), 0);
}

#[test]
fn events_register_unknown_threads_on_the_fly() {
    let mut c = started();
    c.handle_event(String::from("ghostly"), Status::Busy, 1);
    assert_eq!(c.count_active(), 1);
    let reg = c.registry();
    assert_eq!(reg.snapshot()[0].name(), "ghostly");
    assert_eq!(*reg.snapshot()[0].last_status(), Status::Busy);
}
