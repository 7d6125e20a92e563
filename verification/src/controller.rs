//! The runtime controller: a single-threaded state machine that consumes
//! `(thread name, status)` messages, updates the registry, derives the next
//! aggregate run state and publishes the cooperative control signal.
//!
//! The controller is event-sourced: every externally visible operation is
//! specified as a pure function over [`Model`], so a recorded sequence of
//! deliveries can be replayed deterministically.

use vstd::prelude::*;
use crate::registry::{
    record_names, reg_apply, reg_register, reg_retire, record_idx, lemma_record_idx_props,
    ModelRecord, Registry, unique_names,
};
use crate::search::{lemma_name_idx_at, lemma_name_idx_none, lemma_name_idx_props, name_idx};
use crate::status::{is_terminal, GlobalState, GlobalStateV, Signal, Status, StatusV};

verus! {

/// Default number of time units the controller waits during shutdown before
/// detaching unresponsive threads.  Time is whatever monotone counter the
/// caller feeds to `handle_event` and `handle_tick`; the embedding process
/// supplies milliseconds.
pub const DEFAULT_GRACE_PERIOD: u64 = 5000;

/// One delivered status message, at specification level: who sent it, what
/// it said, and the time it was handled.
#[verifier::ext_equal]
pub struct Delivery {
    pub name: Seq<char>,
    pub status: StatusV,
    pub at: int,
}

/// Specification-level state of the whole controller.
#[verifier::ext_equal]
pub struct Model {
    /// The aggregate run state.
    pub state: GlobalStateV,
    /// Names with an outstanding pause request; duplicate-free, so it
    /// represents a set.
    pub requesters: Seq<Seq<char>>,
    /// The registry's records, in registration order.
    pub records: Seq<ModelRecord>,
    /// The cooperative control signal last published.
    pub signal: Signal,
    /// Causes of `Error` events received after the first; diagnostics only.
    pub error_log: Seq<Seq<char>>,
    /// Names detached because they outlived the grace period.
    pub timeouts: Seq<Seq<char>>,
    /// The configured grace period.
    pub grace: int,
    /// When the shutdown drain gives up waiting, once one began.
    pub deadline: Option<int>,
    /// Whether the shutdown drain has completed.
    pub drained: bool,
}

/// Every name occurs at most once.
pub open spec fn unique_name_seq(ns: Seq<Seq<char>>) -> bool {
    forall|i: int, j: int| 0 <= i < j < ns.len() ==> ns[i] != ns[j]
}

impl Model {
    /// Well-formedness: both name lists are duplicate-free, and the pause
    /// requester set is empty exactly while nobody may be requesting a pause.
    pub open spec fn wf(self) -> bool {
        &&& unique_names(self.records)
        &&& unique_name_seq(self.requesters)
        &&& (self.state is Uninitialized ==> self.requesters.len() == 0)
        &&& (self.state is Running ==> self.requesters.len() == 0)
        &&& (self.state is Paused ==> self.requesters.len() > 0)
    }
}

/// `ns` with `n` added, unless already present.
pub open spec fn insert_name(ns: Seq<Seq<char>>, n: Seq<char>) -> Seq<Seq<char>> {
    if name_idx(ns, n) >= 0 {
        ns
    } else {
        ns.push(n)
    }
}

/// `ns` with the first occurrence of `n` removed, if present.
pub open spec fn remove_name(ns: Seq<Seq<char>>, n: Seq<char>) -> Seq<Seq<char>> {
    if name_idx(ns, n) >= 0 {
        ns.remove(name_idx(ns, n))
    } else {
        ns
    }
}

/// Addition on timestamps, saturating at the largest representable time.
pub open spec fn sat_add(a: int, b: int) -> int {
    if a + b <= u64::MAX {
        a + b
    } else {
        u64::MAX as int
    }
}

/// The drain deadline after entering `Ending` or `Fatal` at time `now`: an
/// already-running drain keeps its deadline, otherwise one grace period from
/// now.
pub open spec fn drain_deadline(m: Model, now: int) -> Option<int> {
    if m.deadline is Some {
        m.deadline
    } else {
        Some(sat_add(now, m.grace))
    }
}

/// The model after entering `Ending` at time `now`.
pub open spec fn enter_ending(m: Model, now: int) -> Model {
    Model { state: GlobalStateV::Ending, signal: Signal::Stop, deadline: drain_deadline(m, now), ..m }
}

/// The model after entering `Fatal` at time `now`; the cause is retained.
pub open spec fn enter_fatal(m: Model, cause: Seq<char>, now: int) -> Model {
    Model {
        state: GlobalStateV::Fatal(cause),
        signal: Signal::Stop,
        deadline: drain_deadline(m, now),
        ..m
    }
}

/// The transition table: the model after one `(name, ev)` delivery at time
/// `now`.  The registry records the event (and retires the sender on
/// `Ended`) in every state; the aggregate state then moves as specified,
/// with `Ended` and `Fatal` terminal and a first fatal cause never replaced.
pub open spec fn step_event(m: Model, name: Seq<char>, ev: StatusV, now: int) -> Model {
    let rs1 = reg_apply(m.records, name, ev, now);
    let rs = if ev is Ended {
        reg_retire(rs1, name)
    } else {
        rs1
    };
    let base = Model { records: rs, ..m };
    match m.state {
        GlobalStateV::Uninitialized => match ev {
            StatusV::Error(c) => enter_fatal(base, c, now),
            _ => base,
        },
        GlobalStateV::Running => match ev {
            StatusV::RequestPause => Model {
                state: GlobalStateV::Paused,
                requesters: insert_name(base.requesters, name),
                signal: Signal::Pause,
                ..base
            },
            StatusV::RequestEnd => enter_ending(base, now),
            StatusV::Error(c) => enter_fatal(base, c, now),
            _ => base,
        },
        GlobalStateV::Paused => match ev {
            StatusV::RequestPause => Model { requesters: insert_name(base.requesters, name), ..base },
            StatusV::RequestResume => {
                let rq = remove_name(base.requesters, name);
                if rq.len() == 0 {
                    Model { state: GlobalStateV::Running, requesters: rq, signal: Signal::Continue, ..base }
                } else {
                    Model { requesters: rq, ..base }
                }
            },
            StatusV::RequestEnd => enter_ending(base, now),
            StatusV::Error(c) => enter_fatal(base, c, now),
            _ => base,
        },
        GlobalStateV::Ending => match ev {
            StatusV::Error(c) => enter_fatal(base, c, now),
            StatusV::Ended => if rs.len() == 0 {
                Model { state: GlobalStateV::Ended, drained: true, ..base }
            } else {
                base
            },
            _ => base,
        },
        GlobalStateV::Ended => match ev {
            StatusV::Error(c) => Model { error_log: base.error_log.push(c), ..base },
            _ => base,
        },
        GlobalStateV::Fatal(_) => match ev {
            StatusV::Error(c) => Model { error_log: base.error_log.push(c), ..base },
            StatusV::Ended => if rs.len() == 0 {
                Model { drained: true, ..base }
            } else {
                base
            },
            _ => base,
        },
    }
}

/// The model after a periodic wake at time `now`: once the drain deadline
/// has passed, every straggler is detached (recorded as a supervision
/// timeout, never forcibly terminated) and the shutdown completes; a drain
/// out of `Ending` ends in `Ended`, while `Fatal` stays `Fatal` forever.
pub open spec fn step_tick(m: Model, now: int) -> Model {
    if (m.state is Ending || m.state is Fatal) && !m.drained && m.deadline is Some && now
        >= m.deadline->0 {
        Model {
            state: if m.state is Ending {
                GlobalStateV::Ended
            } else {
                m.state
            },
            records: Seq::empty(),
            timeouts: m.timeouts + record_names(m.records),
            drained: true,
            ..m
        }
    } else {
        m
    }
}

/// The model after a whole sequence of deliveries, oldest first.
pub open spec fn run_events(m: Model, evs: Seq<Delivery>) -> Model
    decreases evs.len(),
{
    if evs.len() == 0 {
        m
    } else {
        run_events(step_event(m, evs[0].name, evs[0].status, evs[0].at), evs.drop_first())
    }
}

/// Applying an event preserves registry name uniqueness.
proof fn lemma_reg_apply_unique(rs: Seq<ModelRecord>, name: Seq<char>, ev: StatusV, now: int)
    requires
        unique_names(rs),
    ensures
        unique_names(reg_apply(rs, name, ev, now)),
{
    lemma_record_idx_props(rs, name);
}

/// Retiring a record preserves registry name uniqueness.
proof fn lemma_reg_retire_unique(rs: Seq<ModelRecord>, name: Seq<char>)
    requires
        unique_names(rs),
    ensures
        unique_names(reg_retire(rs, name)),
{
    lemma_record_idx_props(rs, name);
    let i = record_idx(rs, name);
    if i >= 0 {
        let out = rs.remove(i);
        assert forall|a: int, b: int| 0 <= a < b < out.len() implies out[a].name != out[b].name by {
            let a0 = if a < i { a } else { a + 1 };
            let b0 = if b < i { b } else { b + 1 };
            assert(out[a] == rs[a0]);
            assert(out[b] == rs[b0]);
        }
    }
}

/// Inserting preserves uniqueness, never empties the list, and grows it by
/// at most one.
proof fn lemma_insert_name(ns: Seq<Seq<char>>, n: Seq<char>)
    requires
        unique_name_seq(ns),
    ensures
        unique_name_seq(insert_name(ns, n)),
        insert_name(ns, n).len() > 0,
        insert_name(ns, n).len() >= ns.len(),
{
    lemma_name_idx_props(ns, n);
}

/// Removing preserves uniqueness.
proof fn lemma_remove_name(ns: Seq<Seq<char>>, n: Seq<char>)
    requires
        unique_name_seq(ns),
    ensures
        unique_name_seq(remove_name(ns, n)),
{
    lemma_name_idx_props(ns, n);
    let i = name_idx(ns, n);
    if i >= 0 {
        let out = ns.remove(i);
        assert forall|a: int, b: int| 0 <= a < b < out.len() implies out[a] != out[b] by {
            let a0 = if a < i { a } else { a + 1 };
            let b0 = if b < i { b } else { b + 1 };
            assert(out[a] == ns[a0]);
            assert(out[b] == ns[b0]);
        }
    }
}

/// One delivery preserves well-formedness.
pub proof fn lemma_step_event_wf(m: Model, name: Seq<char>, ev: StatusV, now: int)
    requires
        m.wf(),
    ensures
        step_event(m, name, ev, now).wf(),
{
    lemma_reg_apply_unique(m.records, name, ev, now);
    lemma_reg_retire_unique(reg_apply(m.records, name, ev, now), name);
    lemma_insert_name(m.requesters, name);
    lemma_remove_name(m.requesters, name);
}

/// A periodic wake preserves well-formedness.
pub proof fn lemma_step_tick_wf(m: Model, now: int)
    requires
        m.wf(),
    ensures
        step_tick(m, now).wf(),
{
}

/// Terminal-state invariant: once the aggregate state is `Ended` or
/// `Fatal`, no sequence of further deliveries changes it.
pub proof fn lemma_terminal_state_stable(m: Model, evs: Seq<Delivery>)
    requires
        is_terminal(m.state),
    ensures
        run_events(m, evs).state == m.state,
    decreases evs.len(),
{
    if evs.len() > 0 {
        let m1 = step_event(m, evs[0].name, evs[0].status, evs[0].at);
        assert(m1.state == m.state);
        lemma_terminal_state_stable(m1, evs.drop_first());
    }
}

/// Idempotence: two consecutive `RequestPause` deliveries from the same
/// thread leave the pause-requester set with exactly one entry and the
/// aggregate state `Paused`.
pub proof fn lemma_pause_idempotent(m: Model, x: Seq<char>, t1: int, t2: int)
    requires
        m.wf(),
        m.state is Running,
    ensures
        ({
            let m2 = step_event(step_event(m, x, StatusV::RequestPause, t1), x, StatusV::RequestPause, t2);
            m2.state is Paused && m2.requesters =~= seq![x] && m2.requesters.len() == 1
        }),
{
    let m1 = step_event(m, x, StatusV::RequestPause, t1);
    assert(m.requesters =~= Seq::<Seq<char>>::empty());
    assert(m1.requesters =~= seq![x]);
    let m2 = step_event(m1, x, StatusV::RequestPause, t2);
    assert(name_idx(m1.requesters, x) == 0);
    assert(m2.requesters =~= seq![x]);
}

/// Resume-clearing law: after threads `a` and `b` both request a pause the
/// state is `Paused`; after only `a` requests a resume it remains `Paused`;
/// once `b` also requests a resume it becomes `Running`.
pub proof fn lemma_resume_clears(m: Model, a: Seq<char>, b: Seq<char>, t1: int, t2: int, t3: int, t4: int)
    requires
        m.wf(),
        m.state is Running,
        a != b,
    ensures
        ({
            let m1 = step_event(m, a, StatusV::RequestPause, t1);
            let m2 = step_event(m1, b, StatusV::RequestPause, t2);
            let m3 = step_event(m2, a, StatusV::RequestResume, t3);
            let m4 = step_event(m3, b, StatusV::RequestResume, t4);
            m2.state is Paused && m3.state is Paused && m4.state is Running
        }),
{
    let m1 = step_event(m, a, StatusV::RequestPause, t1);
    assert(m.requesters =~= Seq::<Seq<char>>::empty());
    assert(m1.requesters =~= seq![a]);
    let m2 = step_event(m1, b, StatusV::RequestPause, t2);
    assert(name_idx(m1.requesters, b) == -1);
    assert(m2.requesters =~= seq![a, b]);
    let m3 = step_event(m2, a, StatusV::RequestResume, t3);
    assert(name_idx(m2.requesters, a) == 0);
    assert(m2.requesters.remove(0) =~= seq![b]);
    assert(m3.requesters =~= seq![b]);
    let m4 = step_event(m3, b, StatusV::RequestResume, t4);
    assert(name_idx(m3.requesters, b) == 0);
    assert(m3.requesters.remove(0) =~= Seq::<Seq<char>>::empty());
    assert(m4.requesters.len() == 0);
}

/// Priority law: `RequestEnd` from any thread moves `Running` or `Paused`
/// to `Ending` and publishes `Stop`, regardless of pending pause or resume
/// intent.
pub proof fn lemma_end_overrides(m: Model, x: Seq<char>, t: int)
    requires
        m.state is Running || m.state is Paused,
    ensures
        step_event(m, x, StatusV::RequestEnd, t).state is Ending,
        step_event(m, x, StatusV::RequestEnd, t).signal == Signal::Stop,
{
}

/// First-cause law: the first `Error` cause received is retained as the
/// fatal cause forever; a later cause only joins the side log.
pub proof fn lemma_first_cause_retained(
    m: Model,
    x: Seq<char>,
    y: Seq<char>,
    c1: Seq<char>,
    c2: Seq<char>,
    t1: int,
    t2: int,
)
    requires
        !is_terminal(m.state),
    ensures
        ({
            let m1 = step_event(m, x, StatusV::Error(c1), t1);
            let m2 = step_event(m1, y, StatusV::Error(c2), t2);
            m1.state == GlobalStateV::Fatal(c1) && m2.state == GlobalStateV::Fatal(c1)
                && m2.error_log =~= m1.error_log.push(c2)
        }),
{
}

/// The runtime controller.  Exactly one live instance supervises a run; it
/// owns the registry, the pause-requester set and the control signal, so no
/// locking is ever needed on them.
#[derive(Debug)]
pub struct Controller {
    state: GlobalState,
    registry: Registry,
    pause_requesters: Vec<String>,
    signal: Signal,
    error_log: Vec<String>,
    timeouts: Vec<String>,
    grace_period: u64,
    deadline: Option<u64>,
    drained: bool,
}

impl View for Controller {
    type V = Model;

    closed spec fn view(&self) -> Model {
        Model {
            state: self.state@,
            requesters: Seq::new(self.pause_requesters@.len(), |i: int| self.pause_requesters@[i]@),
            records: self.registry@,
            signal: self.signal,
            error_log: Seq::new(self.error_log@.len(), |i: int| self.error_log@[i]@),
            timeouts: Seq::new(self.timeouts@.len(), |i: int| self.timeouts@[i]@),
            grace: self.grace_period as int,
            deadline: match self.deadline {
                Some(d) => Some(d as int),
                None => None,
            },
            drained: self.drained,
        }
    }
}

/// What starting does: a controller that was never started begins running
/// and publishes `Continue`; anything else is left untouched.
pub open spec fn spec_start(m: Model) -> Model {
    if m.state is Uninitialized {
        Model { state: GlobalStateV::Running, signal: Signal::Continue, ..m }
    } else {
        m
    }
}

impl Controller {
    /// A fresh controller: `Uninitialized`, empty registry, no pause
    /// requesters, `Continue` published, no drain begun.
    pub fn new(grace_period: u64) -> (c: Controller)
        ensures
            c@.wf(),
            c@.state is Uninitialized,
            c@.requesters.len() == 0,
            c@.records.len() == 0,
            c@.signal == Signal::Continue,
            c@.error_log.len() == 0,
            c@.timeouts.len() == 0,
            c@.grace == grace_period as int,
            c@.deadline is None,
            !c@.drained,
    {
        Controller {
            state: GlobalState::Uninitialized,
            registry: Registry::new(),
            pause_requesters: Vec::new(),
            signal: Signal::Continue,
            error_log: Vec::new(),
            timeouts: Vec::new(),
            grace_period,
            deadline: None,
            drained: false,
        }
    }

    /// Starts supervision: `Uninitialized` becomes `Running`.
    pub fn start(&mut self)
        requires
            old(self)@.wf(),
        ensures
            final(self)@ == spec_start(old(self)@),
            final(self)@.wf(),
    {
        if matches!(self.state, GlobalState::Uninitialized) {
            self.state = GlobalState::Running;
            self.signal = Signal::Continue;
        }
        proof {
            assert(self@ =~~= spec_start(old(self)@));
        }
    }

    /// Registers a worker thread, its record defaulted to `Waiting`.
    pub fn register(&mut self, name: String, now: u64)
        requires
            old(self)@.wf(),
        ensures
            final(self)@ == (Model {
                records: reg_register(old(self)@.records, name@, now as int),
                ..old(self)@
            }),
            final(self)@.wf(),
    {
        self.registry.register(name, now);
        proof {
            assert(self@ =~~= (Model {
                records: reg_register(old(self)@.records, name@, now as int),
                ..old(self)@
            }));
            lemma_record_idx_props(old(self)@.records, name@);
        }
    }

    /// Adds `name` to the pause requesters, unless already there.
    fn insert_requester(&mut self, name: &String)
        ensures
            final(self)@ == (Model {
                requesters: insert_name(old(self)@.requesters, name@),
                ..old(self)@
            }),
    {
        let mut i: usize = 0;
        while i < self.pause_requesters.len()
            invariant
                i <= self.pause_requesters.len(),
                forall|j: int| 0 <= j < i ==> #[trigger] self@.requesters[j] != name@,
                self == old(self),
            decreases self.pause_requesters.len() - i,
        {
            let hit = self.pause_requesters[i] == *name;
            proof {
                assert(self@.requesters[i as int] == self.pause_requesters@[i as int]@);
            }
            if hit {
                proof {
                    lemma_name_idx_at(self@.requesters, name@, i as int);
                    assert(self@ =~~= (Model {
                        requesters: insert_name(old(self)@.requesters, name@),
                        ..old(self)@
                    }));
                }
                return ;
            }
            i = i + 1;
        }
        proof {
            lemma_name_idx_none(self@.requesters, name@);
        }
        self.pause_requesters.push(name.clone());
        proof {
            assert(self@ =~~= (Model {
                requesters: insert_name(old(self)@.requesters, name@),
                ..old(self)@
            }));
        }
    }

    /// Removes `name` from the pause requesters; absence is a no-op.
    fn remove_requester(&mut self, name: &String)
        ensures
            final(self)@ == (Model {
                requesters: remove_name(old(self)@.requesters, name@),
                ..old(self)@
            }),
    {
        let mut i: usize = 0;
        while i < self.pause_requesters.len()
            invariant
                i <= self.pause_requesters.len(),
                forall|j: int| 0 <= j < i ==> #[trigger] self@.requesters[j] != name@,
                self == old(self),
            decreases self.pause_requesters.len() - i,
        {
            let hit = self.pause_requesters[i] == *name;
            proof {
                assert(self@.requesters[i as int] == self.pause_requesters@[i as int]@);
            }
            if hit {
                proof {
                    lemma_name_idx_at(self@.requesters, name@, i as int);
                }
                self.pause_requesters.remove(i);
                proof {
                    assert(self@ =~~= (Model {
                        requesters: remove_name(old(self)@.requesters, name@),
                        ..old(self)@
                    }));
                }
                return ;
            }
            i = i + 1;
        }
        proof {
            lemma_name_idx_none(self@.requesters, name@);
            assert(self@ =~~= (Model {
                requesters: remove_name(old(self)@.requesters, name@),
                ..old(self)@
            }));
        }
    }

    /// Fixes the drain deadline, one grace period from `now`, unless a
    /// drain had already begun.
    fn fix_drain_deadline(&mut self, now: u64)
        ensures
            final(self)@ == (Model { deadline: drain_deadline(old(self)@, now as int), ..old(self)@ }),
    {
        if self.deadline.is_none() {
            let d = if now <= u64::MAX - self.grace_period {
                now + self.grace_period
            } else {
                u64::MAX
            };
            self.deadline = Some(d);
        }
        proof {
            assert(self@ =~~= (Model { deadline: drain_deadline(old(self)@, now as int), ..old(self)@ }));
        }
    }

    /// Consumes one `(name, event)` message at time `now`: records it in the
    /// registry and moves the aggregate state per the transition table.
    pub fn handle_event(&mut self, name: String, event: Status, now: u64)
        requires
            old(self)@.wf(),
        ensures
            final(self)@ == step_event(old(self)@, name@, event@, now as int),
            final(self)@.wf(),
    {
        let ghost m0 = self@;
        self.registry.apply(&name, &event, now);
        if matches!(event, Status::Ended) {
            self.registry.retire(&name);
        }
        let ghost base = Model { records: self@.records, ..m0 };
        proof {
            assert(self@ =~~= base);
        }
        match event {
            Status::RequestPause => {
                if matches!(self.state, GlobalState::Running) {
                    self.insert_requester(&name);
                    self.state = GlobalState::Paused;
                    self.signal = Signal::Pause;
                } else if matches!(self.state, GlobalState::Paused) {
                    self.insert_requester(&name);
                }
            },
            Status::RequestResume => {
                if matches!(self.state, GlobalState::Paused) {
                    self.remove_requester(&name);
                    if self.pause_requesters.len() == 0 {
                        self.state = GlobalState::Running;
                        self.signal = Signal::Continue;
                    }
                }
            },
            Status::RequestEnd => {
                if matches!(self.state, GlobalState::Running) || matches!(
                    self.state,
                    GlobalState::Paused,
                ) {
                    self.state = GlobalState::Ending;
                    self.signal = Signal::Stop;
                    self.fix_drain_deadline(now);
                }
            },
            Status::Error(cause) => {
                if matches!(self.state, GlobalState::Ended | GlobalState::Fatal(_)) {
                    self.error_log.push(cause);
                } else {
                    self.state = GlobalState::Fatal(cause);
                    self.signal = Signal::Stop;
                    self.fix_drain_deadline(now);
                }
            },
            Status::Ended => {
                if matches!(self.state, GlobalState::Ending) {
                    if self.registry.count_active() == 0 {
                        self.state = GlobalState::Ended;
                        self.drained = true;
                    }
                } else if matches!(self.state, GlobalState::Fatal(_)) {
                    if self.registry.count_active() == 0 {
                        self.drained = true;
                    }
                }
            },
            _ => {},
        }
        proof {
            assert(self@ =~~= step_event(m0, name@, event@, now as int));
            lemma_step_event_wf(m0, name@, event@, now as int);
        }
    }

    /// A periodic wake during shutdown: once the grace period has elapsed,
    /// detaches every straggler and completes the drain.
    pub fn handle_tick(&mut self, now: u64)
        requires
            old(self)@.wf(),
        ensures
            final(self)@ == step_tick(old(self)@, now as int),
            final(self)@.wf(),
    {
        let ghost m0 = self@;
        let draining = matches!(self.state, GlobalState::Ending | GlobalState::Fatal(_));
        if draining && !self.drained {
            let expired = match self.deadline {
                Some(d) => now >= d,
                None => false,
            };
            if expired {
                let ghost pre_timeouts = self@.timeouts;
                let ghost pre_records = self@.records;
                let mut names = self.registry.detach_all();
                self.timeouts.append(&mut names);
                proof {
                    assert(self@.timeouts =~~= pre_timeouts + record_names(pre_records));
                }
                self.drained = true;
                if matches!(self.state, GlobalState::Ending) {
                    self.state = GlobalState::Ended;
                }
            }
        }
        proof {
            assert(self@ =~~= step_tick(m0, now as int));
            lemma_step_tick_wf(m0, now as int);
        }
    }

    /// The current aggregate run state.
    pub fn state(&self) -> (s: &GlobalState)
        ensures
            s@ == self@.state,
    {
        &self.state
    }

    /// The cooperative control signal last published.
    pub fn signal(&self) -> (s: Signal)
        ensures
            s == self@.signal,
    {
        self.signal
    }

    /// The registry of thread records.
    pub fn registry(&self) -> (r: &Registry)
        ensures
            r@ == self@.records,
    {
        &self.registry
    }

    /// How many threads are still registered.
    pub fn count_active(&self) -> (n: usize)
        ensures
            n == self@.records.len(),
    {
        self.registry.count_active()
    }

    /// How many threads currently request a pause.
    pub fn requester_count(&self) -> (n: usize)
        ensures
            n == self@.requesters.len(),
    {
        self.pause_requesters.len()
    }

    /// Causes of `Error` events received after the first, oldest first.
    pub fn error_log(&self) -> (l: &Vec<String>)
        ensures
            l@.len() == self@.error_log.len(),
            forall|i: int| 0 <= i < l@.len() ==> (#[trigger] l@[i])@ == self@.error_log[i],
    {
        &self.error_log
    }

    /// Names detached because they outlived the grace period, oldest first.
    pub fn supervision_timeouts(&self) -> (l: &Vec<String>)
        ensures
            l@.len() == self@.timeouts.len(),
            forall|i: int| 0 <= i < l@.len() ==> (#[trigger] l@[i])@ == self@.timeouts[i],
    {
        &self.timeouts
    }

    /// Whether the shutdown drain has completed.
    pub fn drain_complete(&self) -> (b: bool)
        ensures
            b == self@.drained,
    {
        self.drained
    }

    /// The configured grace period.
    pub fn grace_period(&self) -> (g: u64)
        ensures
            g as int == self@.grace,
    {
        self.grace_period
    }
}

} // verus!
