//! The task notification registry: a bounded store that reconciles two
//! independent event streams — "a caller wants to know about task `uid`" and
//! "task `uid` has reached a terminal status" — whatever order they arrive
//! in, and lets every interested caller observe the outcome exactly once.
//!
//! `Registry` is the single-owner state machine, specified against a map
//! from task uid to ticket. `TaskManager` shares one registry between any
//! number of producers and subscribers behind a verified reader-writer lock
//! whose invariant is the registry's well-formedness, capacity bound
//! included.

use vstd::prelude::*;
use vstd::rwlock::RwLock;
use vstd::rwlock::RwLockPredicate;
use std::sync::Arc;
use std::sync::mpsc::Sender;
use crate::channel::send_task;
use crate::channel::task_channel;
use crate::promise::Promise;
use crate::task::AsTaskUid;
use crate::task::Task;

verus! {

/// The registry never holds more than this many tickets; above it, the
/// ticket with the smallest uid is evicted to make room.
pub const MAX_TICKETS: usize = 512;

/// Per-uid state: either the outcome is still unknown and some senders wait
/// to be told, or the final task is retained for late subscribers.
///
/// A ticket moves from `Pending` to `Completed` at most once and never
/// back; the registry's contracts enforce that one-way transition.
pub enum TaskTicket {
    Pending(Vec<Sender<Task>>),
    Completed(Task),
}

/// One slot of the registry: a ticket keyed by its task uid.
pub struct TicketEntry {
    pub uid: u64,
    pub ticket: TaskTicket,
}

/// The map a sequence of slots stands for; later slots win, though a
/// well-formed registry never holds a uid twice.
pub open spec fn entries_map(s: Seq<TicketEntry>) -> Map<u64, TaskTicket>
    decreases s.len(),
{
    if s.len() == 0 {
        Map::empty()
    } else {
        entries_map(s.drop_last()).insert(s.last().uid, s.last().ticket)
    }
}

/// No uid occurs twice among the slots.
pub open spec fn no_dup_uids(s: Seq<TicketEntry>) -> bool {
    forall|i: int, j: int| 0 <= i < j < s.len() ==> s[i].uid != s[j].uid
}

/// A completed slot carries the task it was keyed under, and only terminal
/// tasks are retained.
pub open spec fn entry_ok(e: TicketEntry) -> bool {
    e.ticket matches TaskTicket::Completed(task) ==> task.uid == e.uid
        && task.status.spec_has_stopped()
}

/// `uid` is a smallest key of `m`.
pub open spec fn is_min_uid(m: Map<u64, TaskTicket>, uid: u64) -> bool {
    m.contains_key(uid) && forall|v: u64| m.contains_key(v) ==> uid <= v
}

/// The smallest key of `m` (meaningful only when `m` has one).
pub open spec fn spec_min_uid(m: Map<u64, TaskTicket>) -> u64 {
    choose|u: u64| is_min_uid(m, u)
}

/// The map after making room for `uid`: if `uid` is new and the registry is
/// full, the entry with the smallest uid is dropped; otherwise nothing
/// changes.
pub open spec fn evict_for(m: Map<u64, TaskTicket>, uid: u64) -> Map<u64, TaskTicket> {
    if !m.contains_key(uid) && m.len() >= MAX_TICKETS {
        m.remove(spec_min_uid(m))
    } else {
        m
    }
}

/// What a report of `task` does to the ticket map: a duplicate report of a
/// completed uid changes nothing; a pending ticket resolves to `task`; an
/// unknown uid is recorded as completed, evicting the smallest uid if the
/// registry is full.
pub open spec fn report_transition(m: Map<u64, TaskTicket>, task: Task) -> Map<u64, TaskTicket> {
    if m.contains_key(task.uid) {
        match m[task.uid] {
            TaskTicket::Completed(_) => m,
            TaskTicket::Pending(_) => m.insert(task.uid, TaskTicket::Completed(task)),
        }
    } else {
        evict_for(m, task.uid).insert(task.uid, TaskTicket::Completed(task))
    }
}

/// Which senders a report of `task` notifies: exactly those registered on a
/// pending ticket for `task.uid`, and nobody otherwise.
pub open spec fn report_notifies(m: Map<u64, TaskTicket>, task: Task) -> Seq<Sender<Task>> {
    if m.contains_key(task.uid) {
        match m[task.uid] {
            TaskTicket::Completed(_) => Seq::empty(),
            TaskTicket::Pending(ws) => ws@,
        }
    } else {
        Seq::empty()
    }
}

proof fn lemma_no_dup_drop_last(s: Seq<TicketEntry>)
    requires
        no_dup_uids(s),
        s.len() > 0,
    ensures
        no_dup_uids(s.drop_last()),
{
    assert forall|i: int, j: int| 0 <= i < j < s.drop_last().len() implies s.drop_last()[i].uid
        != s.drop_last()[j].uid by {
        assert(s[i].uid != s[j].uid);
    }
}

proof fn lemma_entries_map_contains(s: Seq<TicketEntry>, uid: u64)
    ensures
        entries_map(s).contains_key(uid) <==> exists|i: int| 0 <= i < s.len() && s[i].uid == uid,
    decreases s.len(),
{
    if s.len() > 0 {
        let dl = s.drop_last();
        lemma_entries_map_contains(dl, uid);
        if s.last().uid == uid {
            assert(s[s.len() - 1].uid == uid);
        } else {
            if entries_map(s).contains_key(uid) {
                let i = choose|i: int| 0 <= i < dl.len() && dl[i].uid == uid;
                assert(s[i].uid == uid);
            }
            if exists|i: int| 0 <= i < s.len() && s[i].uid == uid {
                let i = choose|i: int| 0 <= i < s.len() && s[i].uid == uid;
                assert(dl[i].uid == uid);
            }
        }
    }
}

proof fn lemma_entries_map_index(s: Seq<TicketEntry>, i: int)
    requires
        no_dup_uids(s),
        0 <= i < s.len(),
    ensures
        entries_map(s).contains_key(s[i].uid),
        entries_map(s)[s[i].uid] == s[i].ticket,
    decreases s.len(),
{
    if i < s.len() - 1 {
        lemma_no_dup_drop_last(s);
        lemma_entries_map_index(s.drop_last(), i);
        assert(s.drop_last()[i] == s[i]);
        assert(s[i].uid != s[s.len() - 1].uid);
    }
}

proof fn lemma_entries_map_len(s: Seq<TicketEntry>)
    requires
        no_dup_uids(s),
    ensures
        entries_map(s).dom().finite(),
        entries_map(s).len() == s.len(),
    decreases s.len(),
{
    if s.len() == 0 {
        assert(entries_map(s).dom() =~= Set::<u64>::empty());
    } else {
        let dl = s.drop_last();
        lemma_no_dup_drop_last(s);
        lemma_entries_map_len(dl);
        lemma_entries_map_contains(dl, s.last().uid);
        assert(!entries_map(dl).contains_key(s.last().uid)) by {
            if entries_map(dl).contains_key(s.last().uid) {
                let i = choose|i: int| 0 <= i < dl.len() && dl[i].uid == s.last().uid;
                assert(s[i].uid == s[s.len() - 1].uid);
            }
        }
        assert(entries_map(s).dom() =~= entries_map(dl).dom().insert(s.last().uid));
    }
}

proof fn lemma_entries_map_push(s: Seq<TicketEntry>, e: TicketEntry)
    ensures
        entries_map(s.push(e)) == entries_map(s).insert(e.uid, e.ticket),
{
    assert(s.push(e).drop_last() =~= s);
    assert(s.push(e).last() == e);
}

proof fn lemma_entries_map_remove(s: Seq<TicketEntry>, i: int)
    requires
        no_dup_uids(s),
        0 <= i < s.len(),
    ensures
        entries_map(s.remove(i)) == entries_map(s).remove(s[i].uid),
    decreases s.len(),
{
    lemma_no_dup_drop_last(s);
    let dl = s.drop_last();
    if i == s.len() - 1 {
        assert(s.remove(i) =~= dl);
        assert(!entries_map(dl).contains_key(s[i].uid)) by {
            lemma_entries_map_contains(dl, s[i].uid);
            if entries_map(dl).contains_key(s[i].uid) {
                let j = choose|j: int| 0 <= j < dl.len() && dl[j].uid == s[i].uid;
                assert(s[j].uid == s[i].uid);
            }
        }
        assert(entries_map(s).remove(s[i].uid) =~= entries_map(dl));
    } else {
        lemma_entries_map_remove(dl, i);
        assert(s.remove(i).drop_last() =~= dl.remove(i));
        assert(s.remove(i).last() == s.last());
        assert(s[i].uid != s.last().uid);
        assert(entries_map(s.remove(i)) =~= entries_map(s).remove(s[i].uid));
    }
}

proof fn lemma_entry_ok_remove(s: Seq<TicketEntry>, j: int)
    requires
        forall|i: int| 0 <= i < s.len() ==> entry_ok(#[trigger] s[i]),
        0 <= j < s.len(),
    ensures
        forall|i: int| 0 <= i < s.remove(j).len() ==> entry_ok(#[trigger] s.remove(j)[i]),
{
    assert forall|i: int| 0 <= i < s.remove(j).len() implies entry_ok(s.remove(j)[i]) by {
        let i0 = if i < j { i } else { i + 1 };
        assert(s.remove(j)[i] == s[i0]);
    }
}

proof fn lemma_remove_frees_uid(s: Seq<TicketEntry>, j: int)
    requires
        no_dup_uids(s),
        0 <= j < s.len(),
    ensures
        forall|i: int| 0 <= i < s.remove(j).len() ==> (#[trigger] s.remove(j)[i]).uid != s[j].uid,
{
    assert forall|i: int| 0 <= i < s.remove(j).len() implies (#[trigger] s.remove(j)[i]).uid
        != s[j].uid by {
        let i0 = if i < j { i } else { i + 1 };
        assert(s.remove(j)[i] == s[i0]);
        if i0 < j {
            assert(s[i0].uid != s[j].uid);
        } else {
            assert(s[j].uid != s[i0].uid);
        }
    }
}

proof fn lemma_no_dup_remove(s: Seq<TicketEntry>, i: int)
    requires
        no_dup_uids(s),
        0 <= i < s.len(),
    ensures
        no_dup_uids(s.remove(i)),
{
    assert forall|a: int, b: int| 0 <= a < b < s.remove(i).len() implies s.remove(i)[a].uid
        != s.remove(i)[b].uid by {
        let a0 = if a < i { a } else { a + 1 };
        let b0 = if b < i { b } else { b + 1 };
        assert(s.remove(i)[a] == s[a0]);
        assert(s.remove(i)[b] == s[b0]);
        assert(s[a0].uid != s[b0].uid);
    }
}

proof fn lemma_wf_push(s: Seq<TicketEntry>, e: TicketEntry)
    requires
        no_dup_uids(s),
        forall|i: int| 0 <= i < s.len() ==> entry_ok(#[trigger] s[i]),
        forall|i: int| 0 <= i < s.len() ==> (#[trigger] s[i]).uid != e.uid,
        entry_ok(e),
    ensures
        no_dup_uids(s.push(e)),
        forall|i: int| 0 <= i < s.push(e).len() ==> entry_ok(#[trigger] s.push(e)[i]),
{
    assert forall|i: int, j: int| 0 <= i < j < s.push(e).len() implies s.push(e)[i].uid
        != s.push(e)[j].uid by {
        if j < s.len() {
            assert(s[i].uid != s[j].uid);
        } else {
            assert(s.push(e)[j] == e);
            assert(s[i].uid != e.uid);
        }
    }
    assert forall|i: int| 0 <= i < s.push(e).len() implies entry_ok(s.push(e)[i]) by {
        if i < s.len() {
            assert(s.push(e)[i] == s[i]);
        } else {
            assert(s.push(e)[i] == e);
        }
    }
}

/// The bounded map from task uid to ticket. All mutation goes through
/// `report` and `subscribe`; both keep the registry well formed and are
/// specified exactly against the ticket map.
pub struct Registry {
    entries: Vec<TicketEntry>,
}

impl View for Registry {
    type V = Map<u64, TaskTicket>;

    closed spec fn view(&self) -> Map<u64, TaskTicket> {
        entries_map(self.entries@)
    }
}

impl Registry {
    /// Well-formedness: at most `MAX_TICKETS` tickets, no uid twice, every
    /// completed ticket keyed by its task's uid and holding a terminal task.
    pub closed spec fn wf(self) -> bool {
        &&& no_dup_uids(self.entries@)
        &&& self.entries@.len() <= MAX_TICKETS
        &&& forall|i: int| 0 <= i < self.entries@.len() ==> entry_ok(#[trigger] self.entries@[i])
    }

    /// An empty registry.
    pub fn new() -> (r: Registry)
        ensures
            r.wf(),
            r@ == Map::<u64, TaskTicket>::empty(),
    {
        Registry { entries: Vec::new() }
    }

    /// How many tickets are currently held.
    pub fn len(&self) -> (n: usize)
        requires
            self.wf(),
        ensures
            n == self@.len(),
    {
        proof {
            lemma_entries_map_len(self.entries@);
        }
        self.entries.len()
    }

    fn find_index(&self, uid: u64) -> (r: Option<usize>)
        ensures
            match r {
                Some(i) => i < self.entries@.len() && self.entries@[i as int].uid == uid,
                None => forall|i: int| 0 <= i < self.entries@.len() ==> self.entries@[i].uid != uid,
            },
    {
        let mut k: usize = 0;
        while k < self.entries.len()
            invariant
                k <= self.entries@.len(),
                forall|i: int| 0 <= i < k ==> self.entries@[i].uid != uid,
            decreases self.entries@.len() - k,
        {
            if self.entries[k].uid == uid {
                return Some(k);
            }
            k += 1;
        }
        None
    }

    /// Records that `task` — which must be terminal — has completed.
    ///
    /// A duplicate report of an already-completed uid is absorbed: the
    /// stored task is kept and nobody is notified. A pending ticket
    /// resolves to `task` and exactly its registered senders are handed
    /// back, each to be told `task`. An unknown uid is recorded as
    /// completed for late subscribers, evicting the smallest uid first if
    /// the registry is full.
    pub fn report(&mut self, task: Task) -> (waiters: Vec<Sender<Task>>)
        requires
            old(self).wf(),
            task.status.spec_has_stopped(),
        ensures
            final(self).wf(),
            final(self)@ == report_transition(old(self)@, task),
            waiters@ == report_notifies(old(self)@, task),
    {
        let uid = task.uid;
        let ghost m0 = self@;
        match self.find_index(uid) {
            Some(i) => {
                proof {
                    lemma_entries_map_index(self.entries@, i as int);
                }
                let is_pending = {
                    let e: &TicketEntry = &self.entries[i];
                    match &e.ticket {
                        TaskTicket::Pending(_) => true,
                        TaskTicket::Completed(_) => false,
                    }
                };
                if is_pending {
                    let ghost s0 = self.entries@;
                    let entry = self.entries.remove(i);
                    proof {
                        lemma_entries_map_remove(s0, i as int);
                        lemma_no_dup_remove(s0, i as int);
                        lemma_entry_ok_remove(s0, i as int);
                        lemma_remove_frees_uid(s0, i as int);
                    }
                    let ws = match entry.ticket {
                        TaskTicket::Pending(ws) => ws,
                        TaskTicket::Completed(_) => {
                            proof {
                                assert(false);
                            }
                            Vec::new()
                        },
                    };
                    let ghost s1 = self.entries@;
                    let fresh = TicketEntry { uid, ticket: TaskTicket::Completed(task) };
                    self.entries.push(fresh);
                    proof {
                        lemma_entries_map_push(s1, fresh);
                        lemma_wf_push(s1, fresh);
                        assert(self@ =~= report_transition(m0, task));
                    }
                    ws
                } else {
                    proof {
                        assert(self@ =~= report_transition(m0, task));
                    }
                    Vec::new()
                }
            },
            None => {
                proof {
                    lemma_entries_map_contains(self.entries@, uid);
                }
                self.make_room(uid);
                let ghost s1 = self.entries@;
                let fresh = TicketEntry { uid, ticket: TaskTicket::Completed(task) };
                self.entries.push(fresh);
                proof {
                    lemma_entries_map_push(s1, fresh);
                    lemma_wf_push(s1, fresh);
                    assert(self@ =~= report_transition(m0, task));
                }
                Vec::new()
            },
        }
    }

    /// Makes sure a fresh ticket for `uid` can be inserted: if the registry
    /// is full, the ticket with the smallest uid is evicted — even a
    /// still-pending one, whose waiters then learn that it is gone.
    fn make_room(&mut self, uid: u64)
        requires
            old(self).wf(),
            forall|i: int|
                0 <= i < old(self).entries@.len() ==> (#[trigger] old(self).entries@[i]).uid
                    != uid,
        ensures
            final(self).wf(),
            final(self)@ == evict_for(old(self)@, uid),
            final(self).entries@.len() < MAX_TICKETS,
            forall|i: int|
                0 <= i < final(self).entries@.len() ==> (#[trigger] final(self).entries@[i]).uid
                    != uid,
    {
        let ghost m0 = self@;
        proof {
            lemma_entries_map_contains(self.entries@, uid);
            lemma_entries_map_len(self.entries@);
        }
        if self.entries.len() >= MAX_TICKETS {
            let j = self.min_index();
            let ghost s0 = self.entries@;
            proof {
                lemma_entries_map_index(s0, j as int);
                assert(is_min_uid(m0, s0[j as int].uid)) by {
                    assert forall|v: u64| m0.contains_key(v) implies s0[j as int].uid <= v by {
                        lemma_entries_map_contains(s0, v);
                        let k = choose|k: int| 0 <= k < s0.len() && s0[k].uid == v;
                        assert(s0[j as int].uid <= s0[k].uid);
                    }
                }
                assert(is_min_uid(m0, spec_min_uid(m0)));
                assert(spec_min_uid(m0) == s0[j as int].uid);
            }
            self.entries.remove(j);
            proof {
                lemma_entries_map_remove(s0, j as int);
                lemma_no_dup_remove(s0, j as int);
                lemma_entry_ok_remove(s0, j as int);
                assert forall|k: int| 0 <= k < self.entries@.len() implies (
                #[trigger] self.entries@[k]).uid != uid by {
                    let k0 = if k < j { k } else { k + 1 };
                    assert(self.entries@[k] == s0[k0]);
                }
            }
        }
    }

    /// Returns a promise that will eventually yield the task for `uid`.
    ///
    /// If the completion is already recorded, the promise is resolved at
    /// once with the stored task. If a pending ticket exists, one more
    /// sender is attached to it, leaving the earlier subscribers exactly as
    /// they were. Otherwise a fresh pending ticket with this one
    /// subscription is inserted, evicting the smallest uid first if the
    /// registry is full.
    pub fn subscribe(&mut self, uid: u64) -> (p: Promise)
        requires
            old(self).wf(),
        ensures
            final(self).wf(),
            (old(self)@.contains_key(uid) && old(self)@[uid] is Completed) ==> {
                &&& old(self)@[uid] matches TaskTicket::Completed(task) ==> (p matches
                    Promise::Ready(got) && task.equiv(got))
                &&& final(self)@ == old(self)@
            },
            (old(self)@.contains_key(uid) && old(self)@[uid] is Pending) ==> {
                &&& p is Waiting
                &&& final(self)@.contains_key(uid)
                &&& old(self)@[uid] matches TaskTicket::Pending(ws) ==> (final(self)@[uid] matches
                    TaskTicket::Pending(ws2) && ws2@.len() == ws@.len() + 1 && ws2@.subrange(
                    0,
                    ws@.len() as int,
                ) == ws@)
                &&& final(self)@.remove(uid) == old(self)@.remove(uid)
                &&& final(self)@.dom() == old(self)@.dom()
            },
            !old(self)@.contains_key(uid) ==> {
                &&& p is Waiting
                &&& final(self)@.contains_key(uid)
                &&& final(self)@[uid] matches TaskTicket::Pending(ws2) && ws2@.len() == 1
                &&& final(self)@.remove(uid) == evict_for(old(self)@, uid)
            },
    {
        let ghost m0 = self@;
        match self.find_index(uid) {
            Some(i) => {
                proof {
                    lemma_entries_map_index(self.entries@, i as int);
                }
                let ready: Option<Task> = {
                    let e: &TicketEntry = &self.entries[i];
                    match &e.ticket {
                        TaskTicket::Completed(task) => Some(task.clone()),
                        TaskTicket::Pending(_) => None,
                    }
                };
                match ready {
                    Some(task) => Promise::Ready(task),
                    None => {
                        let ghost s0 = self.entries@;
                        let entry = self.entries.remove(i);
                        proof {
                            lemma_entries_map_remove(s0, i as int);
                            lemma_no_dup_remove(s0, i as int);
                            lemma_entry_ok_remove(s0, i as int);
                            lemma_remove_frees_uid(s0, i as int);
                        }
                        let mut ws = match entry.ticket {
                            TaskTicket::Pending(ws) => ws,
                            TaskTicket::Completed(_) => {
                                proof {
                                    assert(false);
                                }
                                Vec::new()
                            },
                        };
                        let ghost ws0 = ws@;
                        let (tx, rx) = task_channel();
                        ws.push(tx);
                        let ghost s1 = self.entries@;
                        let fresh = TicketEntry { uid, ticket: TaskTicket::Pending(ws) };
                        self.entries.push(fresh);
                        proof {
                            lemma_entries_map_push(s1, fresh);
                            lemma_wf_push(s1, fresh);
                            assert(ws@.subrange(0, ws0.len() as int) =~= ws0);
                            assert(self@.remove(uid) =~= m0.remove(uid));
                            assert(self@.dom() =~= m0.dom());
                        }
                        Promise::Waiting(rx)
                    },
                }
            },
            None => {
                proof {
                    lemma_entries_map_contains(self.entries@, uid);
                }
                self.make_room(uid);
                let (tx, rx) = task_channel();
                let mut ws: Vec<Sender<Task>> = Vec::new();
                ws.push(tx);
                let ghost s1 = self.entries@;
                let fresh = TicketEntry { uid, ticket: TaskTicket::Pending(ws) };
                self.entries.push(fresh);
                proof {
                    lemma_entries_map_push(s1, fresh);
                    lemma_wf_push(s1, fresh);
                    assert(self@.remove(uid) =~= evict_for(m0, uid));
                }
                Promise::Waiting(rx)
            },
        }
    }

    /// The retained task for `uid`, if its completion has been recorded.
    pub fn completed(&self, uid: u64) -> (r: Option<Task>)
        requires
            self.wf(),
        ensures
            match r {
                Some(got) => self@.contains_key(uid) && (self@[uid] matches TaskTicket::Completed(
                    task,
                ) && task.equiv(got)),
                None => self@.contains_key(uid) ==> self@[uid] is Pending,
            },
    {
        match self.find_index(uid) {
            Some(i) => {
                proof {
                    lemma_entries_map_index(self.entries@, i as int);
                }
                let e: &TicketEntry = &self.entries[i];
                match &e.ticket {
                    TaskTicket::Completed(task) => Some(task.clone()),
                    TaskTicket::Pending(_) => None,
                }
            },
            None => {
                proof {
                    lemma_entries_map_contains(self.entries@, uid);
                }
                None
            },
        }
    }

    fn min_index(&self) -> (j: usize)
        requires
            self.entries@.len() > 0,
        ensures
            j < self.entries@.len(),
            forall|i: int| 0 <= i < self.entries@.len() ==> self.entries@[j as int].uid
                <= self.entries@[i].uid,
    {
        let mut j: usize = 0;
        let mut k: usize = 1;
        while k < self.entries.len()
            invariant
                j < k <= self.entries@.len(),
                forall|i: int| 0 <= i < k ==> self.entries@[j as int].uid <= self.entries@[i].uid,
            decreases self.entries@.len() - k,
        {
            if self.entries[k].uid < self.entries[j].uid {
                j = k;
            }
            k += 1;
        }
        j
    }
}

proof fn lemma_wf_map_entry(r: Registry, uid: u64)
    requires
        r.wf(),
        r@.contains_key(uid),
    ensures
        r@[uid] matches TaskTicket::Completed(task) ==> task.uid == uid
            && task.status.spec_has_stopped(),
{
    lemma_entries_map_contains(r.entries@, uid);
    let i = choose|i: int| 0 <= i < r.entries@.len() && r.entries@[i].uid == uid;
    lemma_entries_map_index(r.entries@, i);
    assert(entry_ok(r.entries@[i]));
}

/// The invariant under which a registry is shared: well-formedness,
/// capacity bound included, holds of the value in the lock at all times.
pub struct RegistryInv {}

impl RwLockPredicate<Registry> for RegistryInv {
    open spec fn inv(self, v: Registry) -> bool {
        v.wf()
    }
}

/// Shares one registry between any number of producers and subscribers.
///
/// All map mutation happens inside one exclusive-access section; waiting
/// happens outside it, on the promise alone, so one caller's long wait
/// never blocks another's report or subscription.
#[derive(Clone)]
pub struct TaskManager {
    task_tickets: Arc<RwLock<Registry, RegistryInv>>,
}

impl TaskManager {
    /// A manager over a fresh, empty registry.
    pub fn new() -> TaskManager {
        TaskManager {
            task_tickets: Arc::new(RwLock::new(Registry::new(), Ghost(RegistryInv {  }))),
        }
    }

    /// Producer entry point: records that `task` — which must be terminal —
    /// has completed, then notifies every sender that was waiting on it,
    /// each with its own copy of `task`. Never blocks on a slow or vanished
    /// waiter and never fails; what this does to the registry is specified
    /// on [`Registry::report`].
    pub fn handle_task(&self, task: Task)
        requires
            task.status.spec_has_stopped(),
    {
        let (mut registry, handle) = self.task_tickets.acquire_write();
        let waiters = registry.report(task.clone());
        handle.release_write(registry);
        let mut k: usize = 0;
        while k < waiters.len()
            decreases waiters@.len() - k,
        {
            send_task(&waiters[k], task.clone());
            k += 1;
        }
    }

    /// Consumer entry point: a promise that will eventually yield the task
    /// for `uid`. Whatever the interleaving with reports, a promise that is
    /// already resolved holds a terminal task recorded under this very uid;
    /// what this does to the registry is specified on
    /// [`Registry::subscribe`].
    pub fn subscribe(&self, uid: u64) -> (p: Promise)
        ensures
            p.resolved() matches Some(task) ==> task.uid == uid
                && task.status.spec_has_stopped(),
    {
        let (mut registry, handle) = self.task_tickets.acquire_write();
        let ghost before = registry;
        let p = registry.subscribe(uid);
        proof {
            if before@.contains_key(uid) && before@[uid] is Completed {
                lemma_wf_map_entry(before, uid);
            }
        }
        handle.release_write(registry);
        p
    }

    /// Subscribes to `task_uid` and waits for the outcome in one call;
    /// `None` means the wait ended without a task because the ticket is
    /// gone and can never resolve.
    pub fn wait_for_task<U: AsTaskUid>(&self, task_uid: U) -> Option<Task> {
        let uid = task_uid.as_task_uid();
        let promise = self.subscribe(uid);
        match promise.wait() {
            Ok(task) => Some(task),
            Err(_) => None,
        }
    }

    /// The retained task for `uid`, if its completion has been recorded.
    pub fn completed(&self, uid: u64) -> (r: Option<Task>)
        ensures
            r matches Some(task) ==> task.uid == uid && task.status.spec_has_stopped(),
    {
        let read_handle = self.task_tickets.acquire_read();
        let registry = read_handle.borrow();
        let r = registry.completed(uid);
        proof {
            if r is Some {
                lemma_wf_map_entry(*registry, uid);
            }
        }
        read_handle.release_read();
        r
    }
}

impl Default for TaskManager {
    fn default() -> TaskManager {
        TaskManager::new()
    }
}

/// Law: a duplicate report — one for a uid whose completion is already
/// recorded — has no observable effect: the stored task is kept, no other
/// ticket changes, and nobody is notified. Together with promises being
/// consumed by waiting, this is why a waiter can never observe two
/// different tasks for one uid.
pub proof fn law_duplicate_report_ignored(m: Map<u64, TaskTicket>, prior: Task, task: Task)
    requires
        m.contains_key(task.uid),
        m[task.uid] == TaskTicket::Completed(prior),
    ensures
        report_transition(m, task) == m,
        report_notifies(m, task) == Seq::<Sender<Task>>::empty(),
{
}

/// Law: completing a pending ticket notifies exactly its registered
/// senders — every subscriber that attached before the report, and nobody
/// else — each with the reported task, and leaves every other ticket
/// untouched.
pub proof fn law_report_resolves_pending(m: Map<u64, TaskTicket>, ws: Vec<Sender<Task>>, task: Task)
    requires
        m.contains_key(task.uid),
        m[task.uid] == TaskTicket::Pending(ws),
    ensures
        report_notifies(m, task) == ws@,
        report_transition(m, task).contains_key(task.uid),
        report_transition(m, task)[task.uid] == TaskTicket::Completed(task),
        forall|u: u64|
            u != task.uid ==> report_transition(m, task).contains_key(u) == m.contains_key(u),
        forall|u: u64|
            u != task.uid && m.contains_key(u) ==> report_transition(m, task)[u] == m[u],
{
}

/// Law: the pending-to-completed transition is one-way. A ticket already
/// completed with `prior` still holds exactly `prior` after any further
/// report, as long as it was not evicted.
pub proof fn law_completed_is_stable(m: Map<u64, TaskTicket>, prior: Task, task: Task, u: u64)
    requires
        m.contains_key(u),
        m[u] == TaskTicket::Completed(prior),
        report_transition(m, task).contains_key(u),
    ensures
        report_transition(m, task)[u] == TaskTicket::Completed(prior),
{
}

proof fn lemma_finite_set_has_min(s: Set<u64>)
    requires
        s.finite(),
        s.len() > 0,
    ensures
        exists|u: u64| s.contains(u) && forall|v: u64| s.contains(v) ==> u <= v,
    decreases s.len(),
{
    let x = s.choose();
    if s.len() == 1 {
        s.remove(x).lemma_len0_is_empty();
        assert(forall|v: u64| s.contains(v) ==> x <= v) by {
            assert(forall|v: u64| v != x ==> !s.contains(v));
        }
        assert(s.contains(x) && forall|v: u64| s.contains(v) ==> x <= v);
    } else {
        let s2 = s.remove(x);
        lemma_finite_set_has_min(s2);
        let u2 = choose|u: u64| s2.contains(u) && forall|v: u64| s2.contains(v) ==> u <= v;
        if x <= u2 {
            assert(forall|v: u64| s.contains(v) && v != x ==> s2.contains(v));
            assert(s.contains(x) && forall|v: u64| s.contains(v) ==> x <= v);
        } else {
            assert(s.contains(u2) && forall|v: u64| s.contains(v) ==> u2 <= v);
        }
    }
}

/// Law: the registry never grows beyond its capacity — whatever report
/// arrives, a map within bounds stays within bounds.
pub proof fn law_capacity_preserved(m: Map<u64, TaskTicket>, task: Task)
    requires
        m.dom().finite(),
        m.len() <= MAX_TICKETS,
    ensures
        report_transition(m, task).dom().finite(),
        report_transition(m, task).len() <= MAX_TICKETS,
{
    if m.contains_key(task.uid) {
        if m[task.uid] is Pending {
            assert(m.insert(task.uid, TaskTicket::Completed(task)).dom() =~= m.dom());
        }
    } else {
        if m.len() >= MAX_TICKETS {
            lemma_finite_set_has_min(m.dom());
            let u0 = choose|u: u64|
                m.dom().contains(u) && forall|v: u64| m.dom().contains(v) ==> u <= v;
            assert(is_min_uid(m, u0));
            assert(is_min_uid(m, spec_min_uid(m)));
            assert(m.contains_key(spec_min_uid(m)));
        }
    }
}

/// Law: one eviction exactly per insertion beyond capacity. A report of an
/// unknown uid against a full registry drops the ticket with the smallest
/// uid — and only that one — and the registry stays exactly full.
pub proof fn law_eviction_drops_smallest(m: Map<u64, TaskTicket>, task: Task, u0: u64)
    requires
        m.dom().finite(),
        m.len() == MAX_TICKETS,
        !m.contains_key(task.uid),
        is_min_uid(m, u0),
    ensures
        report_transition(m, task) == m.remove(u0).insert(task.uid, TaskTicket::Completed(task)),
        report_transition(m, task).len() == MAX_TICKETS,
        !report_transition(m, task).contains_key(u0),
        forall|u: u64|
            u != u0 && u != task.uid && m.contains_key(u) ==> (
            report_transition(m, task).contains_key(u) && report_transition(m, task)[u] == m[u]),
{
    assert(is_min_uid(m, spec_min_uid(m)));
    assert(spec_min_uid(m) == u0);
    assert(u0 != task.uid);
    assert(m.remove(u0).insert(task.uid, TaskTicket::Completed(task)).dom() =~= m.dom().remove(
        u0,
    ).insert(task.uid));
}

} // verus!
