//! The live-session registry and its fan-out. Each registered viewer session
//! has a scope and two bounded delivery queues; publishing offers an event to
//! every session whose scope selects it and drops it where the queue is full.
use vstd::prelude::*;
use crate::models::{scope_matches, ESPActiveEvent, ESPRecievedEvent, PmValues, ScopeView, SessionType};

verus! {

/// Capacity of a session's data queue.
pub const DATA_CAPACITY: usize = 1;

/// Capacity of a session's status queue.
pub const ACTIVE_CAPACITY: usize = 2;

/// One registered viewer session.
#[derive(Debug)]
pub struct Session {
    id: u64,
    scope: SessionType,
    data: Vec<ESPRecievedEvent>,
    active: Vec<ESPActiveEvent>,
}

/// What the registry holds for one session: its scope and the events
/// waiting in each of its queues, oldest first.
pub struct SessionView {
    pub scope: ScopeView,
    pub data: Seq<(Seq<char>, PmValues)>,
    pub active: Seq<(Seq<char>, bool)>,
}

impl Session {
    pub closed spec fn entry(&self) -> SessionView {
        SessionView {
            scope: self.scope@,
            data: self.data@.map_values(|e: ESPRecievedEvent| e@),
            active: self.active@.map_values(|e: ESPActiveEvent| e@),
        }
    }
}

/// A freshly registered session: its scope, and nothing queued.
pub open spec fn fresh_entry(scope: ScopeView) -> SessionView {
    SessionView { scope, data: Seq::empty(), active: Seq::empty() }
}

/// Queues stay within capacity and hold only events that the scope selects.
pub open spec fn entry_ok(e: SessionView) -> bool {
    &&& e.data.len() <= DATA_CAPACITY
    &&& e.active.len() <= ACTIVE_CAPACITY
    &&& forall|i: int| 0 <= i < e.data.len() ==> scope_matches(e.scope, #[trigger] e.data[i].0)
    &&& forall|i: int| 0 <= i < e.active.len() ==> scope_matches(e.scope, #[trigger] e.active[i].0)
}

/// The session after a data event is offered to it: queued when the scope
/// selects the device and the queue has room, dropped otherwise.
pub open spec fn deliver_data(s: SessionView, ev: (Seq<char>, PmValues)) -> SessionView {
    if scope_matches(s.scope, ev.0) && s.data.len() < DATA_CAPACITY {
        SessionView { data: s.data.push(ev), ..s }
    } else {
        s
    }
}

/// The session after a status event is offered to it.
pub open spec fn deliver_active(s: SessionView, ev: (Seq<char>, bool)) -> SessionView {
    if scope_matches(s.scope, ev.0) && s.active.len() < ACTIVE_CAPACITY {
        SessionView { active: s.active.push(ev), ..s }
    } else {
        s
    }
}

/// The session after its oldest data event was taken.
pub open spec fn pop_data(s: SessionView) -> SessionView {
    SessionView { data: s.data.drop_first(), ..s }
}

/// The session after its oldest status event was taken.
pub open spec fn pop_active(s: SessionView) -> SessionView {
    SessionView { active: s.active.drop_first(), ..s }
}

spec fn offered_data(now: Session, before: Session, ev: (Seq<char>, PmValues)) -> bool {
    now.id == before.id && now.entry() == deliver_data(before.entry(), ev)
}

spec fn offered_active(now: Session, before: Session, ev: (Seq<char>, bool)) -> bool {
    now.id == before.id && now.entry() == deliver_active(before.entry(), ev)
}

/// The registry of live sessions, keyed by session id.
pub struct Registry {
    sessions: Vec<Session>,
    entries: Ghost<Map<u64, SessionView>>,
}

impl View for Registry {
    type V = Map<u64, SessionView>;

    closed spec fn view(&self) -> Map<u64, SessionView> {
        self.entries@
    }
}

impl Registry {
    /// The sessions vector and the map agree, ids are unique, and every
    /// session's queues respect capacity and scope.
    pub closed spec fn wf(&self) -> bool {
        let v = self.sessions@;
        &&& forall|i: int, j: int| 0 <= i < j < v.len() ==> v[i].id != v[j].id
        &&& forall|i: int| 0 <= i < v.len() ==> #[trigger] self@.contains_key(v[i].id)
            && self@[v[i].id] == v[i].entry()
        &&& forall|k: u64| #[trigger] self@.contains_key(k) ==> exists|i: int| 0 <= i < v.len() && v[i].id == k
        &&& forall|k: u64| #[trigger] self@.contains_key(k) ==> entry_ok(self@[k])
    }

    /// An empty registry.
    pub fn new() -> (r: Registry)
        ensures
            r.wf(),
            r@ == Map::<u64, SessionView>::empty(),
    {
        Registry { sessions: Vec::new(), entries: Ghost(Map::empty()) }
    }

    /// Every session's queues stay within capacity and hold only events of
    /// the devices that its scope selects.
    pub proof fn lemma_entries_ok(&self, k: u64)
        requires
            self.wf(),
            self@.contains_key(k),
        ensures
            entry_ok(self@[k]),
    {
    }

    /// Position of the session `id` in the vector, if registered.
    fn find(&self, id: u64) -> (r: Option<usize>)
        requires
            self.wf(),
        ensures
            match r {
                Some(i) => i < self.sessions@.len() && self.sessions@[i as int].id == id,
                None => !self@.contains_key(id),
            },
    {
        let mut i: usize = 0;
        while i < self.sessions.len()
            invariant
                self.wf(),
                i <= self.sessions@.len(),
                forall|j: int| 0 <= j < i ==> self.sessions@[j].id != id,
            decreases self.sessions@.len() - i,
        {
            if self.sessions[i].id == id {
                return Some(i);
            }
            i = i + 1;
        }
        None
    }

    /// Whether the session `id` is registered.
    pub fn contains(&self, id: u64) -> (r: bool)
        requires
            self.wf(),
        ensures
            r == self@.contains_key(id),
    {
        self.find(id).is_some()
    }

    /// Number of registered sessions.
    pub fn len(&self) -> (r: usize)
        requires
            self.wf(),
        ensures
            r == self@.len(),
    {
        proof { self.lemma_len(); }
        self.sessions.len()
    }

    proof fn lemma_len(&self)
        requires
            self.wf(),
        ensures
            self@.dom().finite(),
            self@.len() == self.sessions@.len(),
    {
        let v = self.sessions@;
        let ids = Seq::new(v.len(), |i: int| v[i].id);
        assert(ids.no_duplicates());
        ids.unique_seq_to_set();
        assert(self@.dom() =~= ids.to_set()) by {
            assert forall|k: u64| self@.dom().contains(k) implies ids.to_set().contains(k) by {
                let i = choose|i: int| 0 <= i < v.len() && v[i].id == k;
                assert(ids[i] == k);
            }
            assert forall|k: u64| ids.to_set().contains(k) implies self@.dom().contains(k) by {
                let i = choose|i: int| 0 <= i < ids.len() && ids[i] == k;
                assert(self@.contains_key(v[i].id));
            }
        }
    }
    /// Registers the session `id` with the given scope and empty queues; a
    /// session already registered under `id` is replaced.
    pub fn register(&mut self, id: u64, scope: SessionType)
        requires
            old(self).wf(),
        ensures
            final(self).wf(),
            final(self)@ == old(self)@.insert(id, fresh_entry(scope@)),
    {
        let ghost fe = fresh_entry(scope@);
        let fresh = Session { id, scope, data: Vec::new(), active: Vec::new() };
        assert(fresh.entry().data =~= Seq::empty());
        assert(fresh.entry().active =~= Seq::empty());
        let ghost old_v = self.sessions@;
        let ghost old_m = self@;
        match self.find(id) {
            Some(i) => {
                self.sessions.set(i, fresh);
                self.entries = Ghost(old_m.insert(id, fe));
                assert forall|k: u64| #[trigger] self@.contains_key(k) implies exists|j: int|
                    0 <= j < self.sessions@.len() && self.sessions@[j].id == k by {
                    if k != id {
                        let j = choose|j: int| 0 <= j < old_v.len() && old_v[j].id == k;
                        assert(self.sessions@[j].id == k);
                    } else {
                        assert(self.sessions@[i as int].id == k);
                    }
                }
            },
            None => {
                self.sessions.push(fresh);
                self.entries = Ghost(old_m.insert(id, fe));
                assert forall|k: u64| #[trigger] self@.contains_key(k) implies exists|j: int|
                    0 <= j < self.sessions@.len() && self.sessions@[j].id == k by {
                    if k != id {
                        let j = choose|j: int| 0 <= j < old_v.len() && old_v[j].id == k;
                        assert(self.sessions@[j].id == k);
                    } else {
                        assert(self.sessions@[old_v.len() as int].id == k);
                    }
                }
            },
        }
    }

    /// Removes the session `id`; nothing happens when it is not registered.
    pub fn unregister(&mut self, id: u64)
        requires
            old(self).wf(),
        ensures
            final(self).wf(),
            final(self)@ == old(self)@.remove(id),
    {
        let ghost old_v = self.sessions@;
        let ghost old_m = self@;
        match self.find(id) {
            Some(i) => {
                self.sessions.remove(i);
                self.entries = Ghost(old_m.remove(id));
                let ghost v = self.sessions@;
                assert forall|j: int| 0 <= j < v.len() implies #[trigger] self@.contains_key(v[j].id)
                    && self@[v[j].id] == v[j].entry() by {
                    if j < i {
                        assert(v[j] == old_v[j]);
                    } else {
                        assert(v[j] == old_v[j + 1]);
                    }
                }
                assert forall|k: u64| #[trigger] self@.contains_key(k) implies exists|j: int|
                    0 <= j < v.len() && v[j].id == k by {
                    let j = choose|j: int| 0 <= j < old_v.len() && old_v[j].id == k;
                    if j < i {
                        assert(v[j].id == k);
                    } else {
                        assert(v[j - 1].id == k);
                    }
                }
            },
            None => {
                assert(old_m.remove(id) =~= old_m);
            },
        }
    }

    /// Offers a data event to every session: each one whose scope selects the
    /// event's device and whose data queue has room queues a copy; the event
    /// is dropped for the others. Never blocks.
    pub fn publish_data(&mut self, ev: &ESPRecievedEvent)
        requires
            old(self).wf(),
        ensures
            final(self).wf(),
            final(self)@ == old(self)@.map_values(|s: SessionView| deliver_data(s, ev@)),
    {
        let ghost old_v = self.sessions@;
        let ghost old_m = self@;
        let mut i: usize = 0;
        while i < self.sessions.len()
            invariant
                old(self).wf(),
                old_v == old(self).sessions@,
                old_m == old(self)@,
                self.sessions@.len() == old_v.len(),
                self.entries == old(self).entries,
                i <= old_v.len(),
                forall|j: int| 0 <= j < i ==> offered_data(#[trigger] self.sessions@[j], old_v[j], ev@),
                forall|j: int| i <= j < old_v.len() ==> #[trigger] self.sessions@[j] == old_v[j],
            decreases old_v.len() - i,
        {
            let ghost prev = self.sessions@;
            if self.sessions[i].scope.matches(&ev.id) && self.sessions[i].data.len() < DATA_CAPACITY {
                let copy = ev.duplicate();
                let ghost before = self.sessions@[i as int];
                self.sessions[i].data.push(copy);
                assert(self.sessions@[i as int].entry().data =~= before.entry().data.push(ev@));
                assert(self.sessions@[i as int].entry().active =~= before.entry().active);
            } else {
                assert(old_v[i as int].entry().data.len() == old_v[i as int].data@.len());
            }
            assert forall|j: int| 0 <= j <= i implies offered_data(#[trigger] self.sessions@[j], old_v[j], ev@) by {
                if j < i {
                    assert(self.sessions@[j] == prev[j]);
                    assert(offered_data(prev[j], old_v[j], ev@));
                }
            }
            i = i + 1;
        }
        self.entries = Ghost(old_m.map_values(|s: SessionView| deliver_data(s, ev@)));
        let ghost v = self.sessions@;
        assert forall|j: int| 0 <= j < v.len() implies #[trigger] self@.contains_key(v[j].id)
            && self@[v[j].id] == v[j].entry() by {
            assert(old_m.contains_key(old_v[j].id));
        }
        assert forall|k: u64| #[trigger] self@.contains_key(k) implies exists|j: int|
            0 <= j < v.len() && v[j].id == k by {
            let j = choose|j: int| 0 <= j < old_v.len() && old_v[j].id == k;
            assert(v[j].id == k);
        }
        assert forall|k: u64| #[trigger] self@.contains_key(k) implies entry_ok(self@[k]) by {
            assert(entry_ok(old_m[k]));
            let e = deliver_data(old_m[k], ev@);
            assert forall|x: int| 0 <= x < e.data.len() implies scope_matches(e.scope, #[trigger] e.data[x].0) by {
                if x < old_m[k].data.len() {
                    assert(e.data[x] == old_m[k].data[x]);
                }
            }
        }
    }

    /// Offers a status event to every session, with the same drop-on-full
    /// rule as [`Registry::publish_data`].
    pub fn publish_active(&mut self, ev: &ESPActiveEvent)
        requires
            old(self).wf(),
        ensures
            final(self).wf(),
            final(self)@ == old(self)@.map_values(|s: SessionView| deliver_active(s, ev@)),
    {
        let ghost old_v = self.sessions@;
        let ghost old_m = self@;
        let mut i: usize = 0;
        while i < self.sessions.len()
            invariant
                old(self).wf(),
                old_v == old(self).sessions@,
                old_m == old(self)@,
                self.sessions@.len() == old_v.len(),
                self.entries == old(self).entries,
                i <= old_v.len(),
                forall|j: int| 0 <= j < i ==> offered_active(#[trigger] self.sessions@[j], old_v[j], ev@),
                forall|j: int| i <= j < old_v.len() ==> #[trigger] self.sessions@[j] == old_v[j],
            decreases old_v.len() - i,
        {
            let ghost prev = self.sessions@;
            if self.sessions[i].scope.matches(&ev.id) && self.sessions[i].active.len() < ACTIVE_CAPACITY {
                let copy = ev.duplicate();
                let ghost before = self.sessions@[i as int];
                self.sessions[i].active.push(copy);
                assert(self.sessions@[i as int].entry().active =~= before.entry().active.push(ev@));
                assert(self.sessions@[i as int].entry().data =~= before.entry().data);
            } else {
                assert(old_v[i as int].entry().active.len() == old_v[i as int].active@.len());
            }
            assert forall|j: int| 0 <= j <= i implies offered_active(#[trigger] self.sessions@[j], old_v[j], ev@) by {
                if j < i {
                    assert(self.sessions@[j] == prev[j]);
                    assert(offered_active(prev[j], old_v[j], ev@));
                }
            }
            i = i + 1;
        }
        self.entries = Ghost(old_m.map_values(|s: SessionView| deliver_active(s, ev@)));
        let ghost v = self.sessions@;
        assert forall|j: int| 0 <= j < v.len() implies #[trigger] self@.contains_key(v[j].id)
            && self@[v[j].id] == v[j].entry() by {
            assert(old_m.contains_key(old_v[j].id));
        }
        assert forall|k: u64| #[trigger] self@.contains_key(k) implies exists|j: int|
            0 <= j < v.len() && v[j].id == k by {
            let j = choose|j: int| 0 <= j < old_v.len() && old_v[j].id == k;
            assert(v[j].id == k);
        }
        assert forall|k: u64| #[trigger] self@.contains_key(k) implies entry_ok(self@[k]) by {
            assert(entry_ok(old_m[k]));
            let e = deliver_active(old_m[k], ev@);
            assert forall|x: int| 0 <= x < e.active.len() implies scope_matches(e.scope, #[trigger] e.active[x].0) by {
                if x < old_m[k].active.len() {
                    assert(e.active[x] == old_m[k].active[x]);
                }
            }
        }
    }

    /// Takes the oldest event waiting in the data queue of the session `id`.
    /// Returns `None`, and changes nothing, when the session is not
    /// registered or that queue is empty.
    pub fn take_data(&mut self, id: u64) -> (r: Option<ESPRecievedEvent>)
        requires
            old(self).wf(),
        ensures
            final(self).wf(),
            match r {
                Some(e) => {
                    &&& old(self)@.contains_key(id)
                    &&& old(self)@[id].data.len() > 0
                    &&& e@ == old(self)@[id].data[0]
                    &&& final(self)@ == old(self)@.insert(id, pop_data(old(self)@[id]))
                },
                None => {
                    &&& !(old(self)@.contains_key(id) && old(self)@[id].data.len() > 0)
                    &&& final(self)@ == old(self)@
                },
            },
    {
        let ghost old_v = self.sessions@;
        let ghost old_m = self@;
        match self.find(id) {
            Some(i) => {
                if self.sessions[i].data.len() == 0 {
                    return None;
                }
                let ghost before = self.sessions@[i as int];
                assert(old_m.contains_key(old_v[i as int].id));
                let e = self.sessions[i].data.remove(0);
                let ghost ne = pop_data(old_m[id]);
                self.entries = Ghost(old_m.insert(id, ne));
                let ghost v = self.sessions@;
                assert(v[i as int].entry().data =~= before.entry().data.drop_first());
                assert(v[i as int].entry().active =~= before.entry().active);
                assert forall|j: int| 0 <= j < v.len() && j != i implies #[trigger] v[j] == old_v[j] by {}
                assert forall|k: u64| #[trigger] self@.contains_key(k) implies exists|j: int|
                    0 <= j < v.len() && v[j].id == k by {
                    let j = choose|j: int| 0 <= j < old_v.len() && old_v[j].id == k;
                    assert(v[j].id == k);
                }
                assert forall|k: u64| #[trigger] self@.contains_key(k) implies entry_ok(self@[k]) by {
                    assert(old_m.contains_key(k));
                    assert(entry_ok(old_m[k]));
                    if k == id {
                        assert forall|x: int| 0 <= x < ne.data.len() implies scope_matches(ne.scope, #[trigger] ne.data[x].0) by {
                            assert(ne.data[x] == old_m[k].data[x + 1]);
                        }
                    }
                }
                Some(e)
            },
            None => None,
        }
    }

    /// Takes the oldest event waiting in the active queue of the session `id`.
    /// Returns `None`, and changes nothing, when the session is not
    /// registered or that queue is empty.
    pub fn take_active(&mut self, id: u64) -> (r: Option<ESPActiveEvent>)
        requires
            old(self).wf(),
        ensures
            final(self).wf(),
            match r {
                Some(e) => {
                    &&& old(self)@.contains_key(id)
                    &&& old(self)@[id].active.len() > 0
                    &&& e@ == old(self)@[id].active[0]
                    &&& final(self)@ == old(self)@.insert(id, pop_active(old(self)@[id]))
                },
                None => {
                    &&& !(old(self)@.contains_key(id) && old(self)@[id].active.len() > 0)
                    &&& final(self)@ == old(self)@
                },
            },
    {
        let ghost old_v = self.sessions@;
        let ghost old_m = self@;
        match self.find(id) {
            Some(i) => {
                if self.sessions[i].active.len() == 0 {
                    return None;
                }
                let ghost before = self.sessions@[i as int];
                assert(old_m.contains_key(old_v[i as int].id));
                let e = self.sessions[i].active.remove(0);
                let ghost ne = pop_active(old_m[id]);
                self.entries = Ghost(old_m.insert(id, ne));
                let ghost v = self.sessions@;
                assert(v[i as int].entry().active =~= before.entry().active.drop_first());
                assert(v[i as int].entry().data =~= before.entry().data);
                assert forall|j: int| 0 <= j < v.len() && j != i implies #[trigger] v[j] == old_v[j] by {}
                assert forall|k: u64| #[trigger] self@.contains_key(k) implies exists|j: int|
                    0 <= j < v.len() && v[j].id == k by {
                    let j = choose|j: int| 0 <= j < old_v.len() && old_v[j].id == k;
                    assert(v[j].id == k);
                }
                assert forall|k: u64| #[trigger] self@.contains_key(k) implies entry_ok(self@[k]) by {
                    assert(old_m.contains_key(k));
                    assert(entry_ok(old_m[k]));
                    if k == id {
                        assert forall|x: int| 0 <= x < ne.active.len() implies scope_matches(ne.scope, #[trigger] ne.active[x].0) by {
                            assert(ne.active[x] == old_m[k].active[x + 1]);
                        }
                    }
                }
                Some(e)
            },
            None => None,
        }
    }

}

/// A viewer subscribed to one device is never offered another device's
/// events, and what waits in its queues is of that device only; a viewer
/// subscribed to every device gets each published event that finds room in
/// its queue.
pub proof fn lemma_delivery_follows_scope(
    r: &Registry,
    k: u64,
    data_ev: (Seq<char>, PmValues),
    active_ev: (Seq<char>, bool),
)
    requires
        r.wf(),
        r@.contains_key(k),
    ensures
        r@[k].scope is Child && data_ev.0 != r@[k].scope->Child_0 ==> deliver_data(r@[k], data_ev) == r@[k],
        r@[k].scope is Child && active_ev.0 != r@[k].scope->Child_0 ==> deliver_active(r@[k], active_ev) == r@[k],
        r@[k].scope is Child ==> forall|i: int| 0 <= i < r@[k].data.len() ==> #[trigger] r@[k].data[i].0 == r@[k].scope->Child_0,
        r@[k].scope is Child ==> forall|i: int| 0 <= i < r@[k].active.len() ==> #[trigger] r@[k].active[i].0 == r@[k].scope->Child_0,
        r@[k].scope is Main && r@[k].data.len() < DATA_CAPACITY ==> deliver_data(r@[k], data_ev).data == r@[k].data.push(data_ev),
        r@[k].scope is Main && r@[k].active.len() < ACTIVE_CAPACITY ==> deliver_active(r@[k], active_ev).active == r@[k].active.push(active_ev),
{
    r.lemma_entries_ok(k);
    let e = r@[k];
    if e.scope is Child {
        assert forall|i: int| 0 <= i < e.data.len() implies #[trigger] e.data[i].0 == e.scope->Child_0 by {
            assert(scope_matches(e.scope, e.data[i].0));
        }
        assert forall|i: int| 0 <= i < e.active.len() implies #[trigger] e.active[i].0 == e.scope->Child_0 by {
            assert(scope_matches(e.scope, e.active[i].0));
        }
    }
}

/// A queue that is full drops what is published to it: a session holding one
/// unconsumed data event (or two status events) is left unchanged by a
/// further publish, and no registered session ever holds more than that.
pub proof fn lemma_full_queue_drops(
    r: &Registry,
    k: u64,
    data_ev: (Seq<char>, PmValues),
    active_ev: (Seq<char>, bool),
)
    requires
        r.wf(),
        r@.contains_key(k),
    ensures
        r@[k].data.len() <= DATA_CAPACITY,
        r@[k].active.len() <= ACTIVE_CAPACITY,
        r@[k].data.len() == DATA_CAPACITY ==> deliver_data(r@[k], data_ev) == r@[k],
        r@[k].active.len() == ACTIVE_CAPACITY ==> deliver_active(r@[k], active_ev) == r@[k],
{
    r.lemma_entries_ok(k);
}

} // verus!
