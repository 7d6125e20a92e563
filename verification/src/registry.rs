//! The status registry: the controller-owned table mapping each registered
//! thread name to its last known status and the time of its last update.

use vstd::prelude::*;
use vstd::pervasive::VecAdditionalExecFns;
use crate::status::{dup_status, Status, StatusV};

verus! {

/// The last known state of one registered worker thread.
#[derive(Debug)]
pub struct ThreadRecord {
    name: String,
    last_status: Status,
    last_update: u64,
}

/// Specification-level form of [`ThreadRecord`].
#[verifier::ext_equal]
pub struct ModelRecord {
    pub name: Seq<char>,
    pub status: StatusV,
    pub updated: int,
}

impl View for ThreadRecord {
    type V = ModelRecord;

    closed spec fn view(&self) -> ModelRecord {
        ModelRecord { name: self.name@, status: self.last_status@, updated: self.last_update as int }
    }
}

impl ThreadRecord {
    /// The thread's registered name.
    pub fn name(&self) -> (r: &String)
        ensures
            r@ == self@.name,
    {
        &self.name
    }

    /// The status the thread most recently reported.
    pub fn last_status(&self) -> (r: &Status)
        ensures
            r@ == self@.status,
    {
        &self.last_status
    }

    /// The time of the most recent update.
    pub fn last_update(&self) -> (r: u64)
        ensures
            r as int == self@.updated,
    {
        self.last_update
    }
}

/// Index of the record named `name`, or `-1` when none is.
pub open spec fn record_idx(rs: Seq<ModelRecord>, name: Seq<char>) -> int
    decreases rs.len(),
{
    if rs.len() == 0 {
        -1
    } else if rs[0].name == name {
        0
    } else {
        let r = record_idx(rs.drop_first(), name);
        if r < 0 {
            -1
        } else {
            r + 1
        }
    }
}

/// When no record is named `name`, its index is `-1`.
pub proof fn lemma_record_idx_none(rs: Seq<ModelRecord>, name: Seq<char>)
    requires
        forall|j: int| 0 <= j < rs.len() ==> (#[trigger] rs[j]).name != name,
    ensures
        record_idx(rs, name) == -1,
    decreases rs.len(),
{
    if rs.len() > 0 {
        lemma_record_idx_none(rs.drop_first(), name);
    }
}

/// When `rs[i]` is named `name` and no earlier record is, `i` is its index.
pub proof fn lemma_record_idx_at(rs: Seq<ModelRecord>, name: Seq<char>, i: int)
    requires
        0 <= i < rs.len(),
        rs[i].name == name,
        forall|j: int| 0 <= j < i ==> (#[trigger] rs[j]).name != name,
    ensures
        record_idx(rs, name) == i,
    decreases i,
{
    if i > 0 {
        lemma_record_idx_at(rs.drop_first(), name, i - 1);
    }
}

/// What a record index of `-1` or of an in-range index each imply.
pub proof fn lemma_record_idx_props(rs: Seq<ModelRecord>, name: Seq<char>)
    ensures
        record_idx(rs, name) == -1 ==> forall|j: int|
            0 <= j < rs.len() ==> (#[trigger] rs[j]).name != name,
        record_idx(rs, name) != -1 ==> 0 <= record_idx(rs, name) < rs.len() && rs[record_idx(
            rs,
            name,
        )].name == name && forall|j: int|
            0 <= j < record_idx(rs, name) ==> (#[trigger] rs[j]).name != name,
    decreases rs.len(),
{
    if rs.len() > 0 {
        lemma_record_idx_props(rs.drop_first(), name);
        let r = record_idx(rs, name);
        if r == -1 {
            assert forall|j: int| 0 <= j < rs.len() implies (#[trigger] rs[j]).name != name by {
                if j > 0 {
                    assert(rs.drop_first()[j - 1] == rs[j]);
                }
            }
        } else if r > 0 {
            assert(rs.drop_first()[r - 1] == rs[r]);
            assert forall|j: int| 0 <= j < r implies (#[trigger] rs[j]).name != name by {
                if j > 0 {
                    assert(rs.drop_first()[j - 1] == rs[j]);
                }
            }
        }
    }
}

/// Every record carries a distinct name.
pub open spec fn unique_names(rs: Seq<ModelRecord>) -> bool {
    forall|i: int, j: int|
        0 <= i < j < rs.len() ==> (#[trigger] rs[i]).name != (#[trigger] rs[j]).name
}

/// What registering `name` at time `now` does: a fresh record defaulting to
/// `Waiting` is appended; a name already present is left untouched.
pub open spec fn reg_register(rs: Seq<ModelRecord>, name: Seq<char>, now: int) -> Seq<ModelRecord> {
    if record_idx(rs, name) >= 0 {
        rs
    } else {
        rs.push(ModelRecord { name, status: StatusV::Waiting, updated: now })
    }
}

/// What applying an event does: the named record is replaced (or created)
/// with the event as its status and `now` as its update time.
pub open spec fn reg_apply(rs: Seq<ModelRecord>, name: Seq<char>, ev: StatusV, now: int) -> Seq<
    ModelRecord,
> {
    let i = record_idx(rs, name);
    if i >= 0 {
        rs.update(i, ModelRecord { name, status: ev, updated: now })
    } else {
        rs.push(ModelRecord { name, status: ev, updated: now })
    }
}

/// The status held by the named record before an update, if one was held.
pub open spec fn reg_prev(rs: Seq<ModelRecord>, name: Seq<char>) -> Option<StatusV> {
    let i = record_idx(rs, name);
    if i >= 0 {
        Some(rs[i].status)
    } else {
        None
    }
}

/// What retiring does: the named record is removed, if present.
pub open spec fn reg_retire(rs: Seq<ModelRecord>, name: Seq<char>) -> Seq<ModelRecord> {
    let i = record_idx(rs, name);
    if i >= 0 {
        rs.remove(i)
    } else {
        rs
    }
}

/// The names of the given records, in registration order.
pub open spec fn record_names(rs: Seq<ModelRecord>) -> Seq<Seq<char>> {
    Seq::new(rs.len(), |i: int| rs[i].name)
}

/// Specification-level view of an optional previous status.
pub open spec fn opt_status_view(o: Option<Status>) -> Option<StatusV> {
    match o {
        Some(s) => Some(s@),
        None => None,
    }
}

/// The coordinator-owned table of thread records, mutated only by the
/// controller thread; workers never touch it.
#[derive(Debug)]
pub struct Registry {
    records: Vec<ThreadRecord>,
}

impl View for Registry {
    type V = Seq<ModelRecord>;

    closed spec fn view(&self) -> Seq<ModelRecord> {
        Seq::new(self.records@.len(), |i: int| self.records@[i]@)
    }
}

impl Registry {
    /// An empty registry.
    pub fn new() -> (r: Registry)
        ensures
            r@ =~= Seq::<ModelRecord>::empty(),
    {
        Registry { records: Vec::new() }
    }

    /// Index of the record named `name`, if one exists.
    fn find(&self, name: &String) -> (r: Option<usize>)
        ensures
            match r {
                Some(i) => i < self@.len() && record_idx(self@, name@) == i,
                None => record_idx(self@, name@) == -1,
            },
    {
        let mut i: usize = 0;
        while i < self.records.len()
            invariant
                i <= self.records.len(),
                forall|j: int| 0 <= j < i ==> (#[trigger] self@[j]).name != name@,
            decreases self.records.len() - i,
        {
            let hit = self.records[i].name == *name;
            proof {
                assert(self@[i as int] == self.records@[i as int]@);
            }
            if hit {
                proof {
                    lemma_record_idx_at(self@, name@, i as int);
                }
                return Some(i);
            }
            i = i + 1;
        }
        proof {
            lemma_record_idx_none(self@, name@);
        }
        None
    }

    /// Creates a record for `name` defaulted to `Waiting`; a no-op when the
    /// name is already registered.
    pub fn register(&mut self, name: String, now: u64)
        ensures
            final(self)@ == reg_register(old(self)@, name@, now as int),
    {
        match self.find(&name) {
            Some(_) => {},
            None => {
                self.records.push(
                    ThreadRecord { name, last_status: Status::Waiting, last_update: now },
                );
                assert(self@ =~= reg_register(old(self)@, name@, now as int));
            },
        }
    }

    /// Records the event as the named thread's status, returning the status
    /// held before.  A name never registered gets a record on the spot and
    /// `None` is returned.
    pub fn apply(&mut self, name: &String, event: &Status, now: u64) -> (prev: Option<Status>)
        ensures
            final(self)@ == reg_apply(old(self)@, name@, event@, now as int),
            opt_status_view(prev) == reg_prev(old(self)@, name@),
    {
        match self.find(name) {
            Some(i) => {
                let prev = dup_status(self.records[i].last_status());
                self.records.set(
                    i,
                    ThreadRecord { name: name.clone(), last_status: dup_status(event), last_update: now },
                );
                assert(self@ =~= reg_apply(old(self)@, name@, event@, now as int));
                Some(prev)
            },
            None => {
                self.records.push(
                    ThreadRecord { name: name.clone(), last_status: dup_status(event), last_update: now },
                );
                assert(self@ =~= reg_apply(old(self)@, name@, event@, now as int));
                None
            },
        }
    }

    /// Removes the named record; a no-op when the name is absent.
    pub fn retire(&mut self, name: &String)
        ensures
            final(self)@ == reg_retire(old(self)@, name@),
    {
        match self.find(name) {
            Some(i) => {
                self.records.remove(i);
                assert(self@ =~= reg_retire(old(self)@, name@));
            },
            None => {},
        }
    }

    /// How many threads are still registered.
    pub fn count_active(&self) -> (n: usize)
        ensures
            n == self@.len(),
    {
        self.records.len()
    }

    /// True when every registered thread has reported `Ended`; vacuously
    /// true of an empty registry.
    pub fn all_terminal_or_ended(&self) -> (r: bool)
        ensures
            r == forall|i: int| 0 <= i < self@.len() ==> (#[trigger] self@[i]).status is Ended,
    {
        let mut i: usize = 0;
        while i < self.records.len()
            invariant
                i <= self.records.len(),
                forall|j: int| 0 <= j < i ==> (#[trigger] self@[j]).status is Ended,
            decreases self.records.len() - i,
        {
            let ended = matches!(self.records[i].last_status, Status::Ended);
            proof {
                assert(self@[i as int] == self.records@[i as int]@);
            }
            if !ended {
                return false;
            }
            i = i + 1;
        }
        true
    }

    /// Removes every remaining record, handing back the detached names in
    /// registration order.
    pub fn detach_all(&mut self) -> (names: Vec<String>)
        ensures
            final(self)@ =~= Seq::<ModelRecord>::empty(),
            Seq::new(names@.len(), |i: int| names@[i]@) == record_names(old(self)@),
    {
        let mut names: Vec<String> = Vec::new();
        let ghost orig = self@;
        while self.records.len() > 0
            invariant
                names@.len() + self.records.len() == orig.len(),
                Seq::new(names@.len(), |i: int| names@[i]@) =~= record_names(
                    orig.take(names@.len() as int),
                ),
                self@ =~= orig.skip(names@.len() as int),
            decreases self.records.len(),
        {
            let ghost k = names@.len() as int;
            let ghost pre = self@;
            let r = self.records.remove(0);
            proof {
                assert(r@ == pre[0]);
                assert(pre[0] == orig.skip(k)[0]);
                assert(orig.skip(k)[0] == orig[k]);
                assert(self@ =~= pre.remove(0));
                assert(pre.remove(0) =~= orig.skip(k + 1));
            }
            names.push(r.name);
            proof {
                assert forall|i: int| 0 <= i < names@.len() implies names@[i]@ == record_names(
                    orig.take(k + 1),
                )[i] by {
                    if i < k {
                        assert(names@[i]@ == record_names(orig.take(k))[i]);
                    }
                }
                assert(Seq::new(names@.len(), |i: int| names@[i]@) =~= record_names(
                    orig.take(k + 1),
                ));
            }
        }
        assert(orig.take(names@.len() as int) =~= orig);
        names
    }

    /// A read-only view of all records, in registration order.
    pub fn snapshot(&self) -> (r: &Vec<ThreadRecord>)
        ensures
            r@.len() == self@.len(),
            forall|i: int| 0 <= i < r@.len() ==> (#[trigger] r@[i])@ == self@[i],
    {
        &self.records
    }
}

} // verus!
