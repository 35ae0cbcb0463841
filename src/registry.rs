//! The table of live sessions of a project: local sessions by id, and for a
//! remotely hosted project the channel that feeds each remote session's
//! output, by the session id that the host assigned.
use vstd::prelude::*;

use std::collections::HashMap;

verus! {

broadcast use vstd::std_specs::hash::group_hash_axioms;

/// One step in the life of local sessions.
#[derive(Clone, Copy, Debug, PartialEq, Eq, Structural)]
pub enum SessionEvent {
    Created(u64),
    Released(u64),
}

/// The live local sessions after one event.
pub open spec fn step(live: Set<u64>, e: SessionEvent) -> Set<u64> {
    match e {
        SessionEvent::Created(id) => live.insert(id),
        SessionEvent::Released(id) => live.remove(id),
    }
}

/// The registry's local sessions after a run of events, from an empty registry.
pub open spec fn replay(events: Seq<SessionEvent>) -> Set<u64>
    decreases events.len(),
{
    if events.len() == 0 {
        Set::empty()
    } else {
        step(replay(events.drop_last()), events.last())
    }
}

/// The sessions that are live after a run of events: those created at some
/// point and not released since.
pub open spec fn live_sessions(events: Seq<SessionEvent>) -> Set<u64> {
    Set::new(
        |id: u64|
            exists|i: int|
                0 <= i < events.len() && #[trigger] events[i] == SessionEvent::Created(id) && forall|j: int|
                    i < j < events.len() ==> #[trigger] events[j] != SessionEvent::Released(id),
    )
}

/// Whatever sessions are created and released, and in whatever order, the
/// registry holds exactly the sessions that are still live.
pub proof fn registry_holds_live_sessions(events: Seq<SessionEvent>)
    ensures
        replay(events) == live_sessions(events),
    decreases events.len(),
{
    if events.len() > 0 {
        let prev = events.drop_last();
        let n = events.len() - 1;
        registry_holds_live_sessions(prev);
        assert forall|id: u64| #[trigger] replay(events).contains(id) == live_sessions(events).contains(id) by {
            if replay(events).contains(id) {
                match events.last() {
                    SessionEvent::Created(c) => {
                        if c == id {
                            assert(events[n] == SessionEvent::Created(id));
                        } else {
                            let i = choose|i: int|
                                0 <= i < prev.len() && #[trigger] prev[i] == SessionEvent::Created(id) && forall|j: int|
                                    i < j < prev.len() ==> #[trigger] prev[j] != SessionEvent::Released(id);
                            assert(events[i] == SessionEvent::Created(id));
                            assert forall|j: int| i < j < events.len() implies #[trigger] events[j] != SessionEvent::Released(id) by {
                                if j < n {
                                    assert(prev[j] != SessionEvent::Released(id));
                                }
                            }
                        }
                    },
                    SessionEvent::Released(r) => {
                        let i = choose|i: int|
                            0 <= i < prev.len() && #[trigger] prev[i] == SessionEvent::Created(id) && forall|j: int|
                                i < j < prev.len() ==> #[trigger] prev[j] != SessionEvent::Released(id);
                        assert(events[i] == SessionEvent::Created(id));
                        assert forall|j: int| i < j < events.len() implies #[trigger] events[j] != SessionEvent::Released(id) by {
                            if j < n {
                                assert(prev[j] != SessionEvent::Released(id));
                            }
                        }
                    },
                }
            }
            if live_sessions(events).contains(id) {
                let i = choose|i: int|
                    0 <= i < events.len() && #[trigger] events[i] == SessionEvent::Created(id) && forall|j: int|
                        i < j < events.len() ==> #[trigger] events[j] != SessionEvent::Released(id);
                if i < n {
                    assert(prev[i] == SessionEvent::Created(id));
                    assert forall|j: int| i < j < prev.len() implies #[trigger] prev[j] != SessionEvent::Released(id) by {
                        assert(events[j] != SessionEvent::Released(id));
                    }
                    assert(live_sessions(prev).contains(id));
                    assert(events[n] != SessionEvent::Released(id));
                } else {
                    assert(events.last() == SessionEvent::Created(id));
                }
            }
        }
        assert(replay(events) =~= live_sessions(events));
    } else {
        assert(replay(events) =~= live_sessions(events));
    }
}

/// Releasing a session a second time changes nothing: its entry went with
/// the first release, and the second finds none.
pub proof fn release_is_idempotent(live: Set<u64>, id: u64)
    ensures
        !step(live, SessionEvent::Released(id)).contains(id),
        step(step(live, SessionEvent::Released(id)), SessionEvent::Released(id)) == step(
            live,
            SessionEvent::Released(id),
        ),
{
    assert(live.remove(id).remove(id) =~= live.remove(id));
}

/// The live sessions of a project.
#[derive(Debug)]
pub struct Terminals<S> {
    local_handles: Vec<u64>,
    remote_handles: HashMap<u64, S>,
}

impl<S> Terminals<S> {
    /// The ids of the live local sessions.
    pub closed spec fn local_sessions(&self) -> Set<u64> {
        self.local_handles@.to_set()
    }

    /// The output channel of each live remote session, by session id.
    pub closed spec fn remote_sessions(&self) -> Map<u64, S> {
        self.remote_handles@
    }

    /// Each local session stands in the registry once.
    #[verifier::type_invariant]
    spec fn wf(&self) -> bool {
        self.local_handles@.no_duplicates()
    }

    /// A registry with no sessions.
    pub fn new() -> (r: Self)
        ensures
            r.local_sessions() == Set::<u64>::empty(),
            r.remote_sessions() == Map::<u64, S>::empty(),
    {
        let r = Terminals { local_handles: Vec::new(), remote_handles: HashMap::new() };
        assert(r.local_handles@.to_set() =~= Set::<u64>::empty());
        r
    }

    fn local_position(&self, id: u64) -> (r: Option<usize>)
        ensures
            match r {
                Some(i) => i < self.local_handles@.len() && self.local_handles@[i as int] == id,
                None => !self.local_handles@.contains(id),
            },
    {
        let mut i: usize = 0;
        while i < self.local_handles.len()
            invariant
                0 <= i <= self.local_handles@.len(),
                forall|j: int| 0 <= j < i ==> self.local_handles@[j] != id,
            decreases self.local_handles@.len() - i,
        {
            if self.local_handles[i] == id {
                return Some(i);
            }
            i = i + 1;
        }
        None
    }

    /// Whether the local session `id` is live.
    pub fn is_live_local(&self, id: u64) -> (r: bool)
        ensures
            r == self.local_sessions().contains(id),
    {
        self.local_position(id).is_some()
    }

    /// The number of live local sessions.
    pub fn local_count(&self) -> (r: usize)
        ensures
            r == self.local_sessions().len(),
    {
        proof {
            use_type_invariant(self);
            self.local_handles@.unique_seq_to_set();
        }
        self.local_handles.len()
    }

    /// Records a new local session. Returns false, and changes nothing, when
    /// the id is already live.
    pub fn register_local(&mut self, id: u64) -> (r: bool)
        ensures
            r == !old(self).local_sessions().contains(id),
            final(self).local_sessions() == step(old(self).local_sessions(), SessionEvent::Created(id)),
            final(self).remote_sessions() == old(self).remote_sessions(),
    {
        if self.local_position(id).is_some() {
            assert(self.local_handles@.to_set().insert(id) =~= self.local_handles@.to_set());
            return false;
        }
        proof {
            use_type_invariant(&*self);
        }
        let ghost before = self.local_handles@;
        let mut handles = Vec::new();
        std::mem::swap(&mut handles, &mut self.local_handles);
        handles.push(id);
        proof {
            assert(handles@ == before.push(id));
            assert(handles@.no_duplicates()) by {
                assert forall|i: int, j: int| 0 <= i < handles@.len() && 0 <= j < handles@.len() && i != j
                    implies handles@[i] != handles@[j] by {
                    if i == before.len() {
                        assert(before[j] != id);
                    } else if j == before.len() {
                        assert(before[i] != id);
                    }
                }
            }
            assert(handles@.to_set() =~= before.to_set().insert(id)) by {
                assert forall|x: u64| handles@.contains(x) == before.to_set().insert(id).contains(x) by {
                    if handles@.contains(x) {
                        let i = choose|i: int| 0 <= i < handles@.len() && handles@[i] == x;
                        if i < before.len() {
                            assert(before[i] == x);
                        }
                    }
                    if before.contains(x) {
                        let i = choose|i: int| 0 <= i < before.len() && before[i] == x;
                        assert(handles@[i] == x);
                    }
                    if x == id {
                        assert(handles@[before.len() as int] == id);
                    }
                }
            }
        }
        self.local_handles = handles;
        true
    }

    /// Removes a released local session. Returns whether it was live; a
    /// second release of the same session finds nothing and changes nothing.
    pub fn release_local(&mut self, id: u64) -> (r: bool)
        ensures
            r == old(self).local_sessions().contains(id),
            final(self).local_sessions() == step(old(self).local_sessions(), SessionEvent::Released(id)),
            final(self).remote_sessions() == old(self).remote_sessions(),
    {
        match self.local_position(id) {
            None => {
                assert(self.local_handles@.to_set().remove(id) =~= self.local_handles@.to_set());
                false
            },
            Some(i) => {
                proof {
                    use_type_invariant(&*self);
                }
                let ghost before = self.local_handles@;
                let mut handles = Vec::new();
                std::mem::swap(&mut handles, &mut self.local_handles);
                handles.remove(i);
                proof {
                    assert(handles@ == before.remove(i as int));
                    assert(handles@.no_duplicates()) by {
                        assert forall|a: int, b: int| 0 <= a < handles@.len() && 0 <= b < handles@.len() && a != b
                            implies handles@[a] != handles@[b] by {
                            let a2 = if a < i { a } else { a + 1 };
                            let b2 = if b < i { b } else { b + 1 };
                            assert(handles@[a] == before[a2]);
                            assert(handles@[b] == before[b2]);
                        }
                    }
                            assert(handles@.to_set() =~= before.to_set().remove(id)) by {
                        assert forall|x: u64| handles@.contains(x) == before.to_set().remove(id).contains(x) by {
                            if handles@.contains(x) {
                                let a = choose|a: int| 0 <= a < handles@.len() && handles@[a] == x;
                                let a2 = if a < i { a } else { a + 1 };
                                assert(before[a2] == x);
                                assert(a2 != i);
                            }
                            if before.contains(x) && x != id {
                                let a = choose|a: int| 0 <= a < before.len() && before[a] == x;
                                if a < i {
                                    assert(handles@[a] == x);
                                } else {
                                    assert(a != i);
                                    assert(handles@[a - 1] == x);
                                }
                            }
                        }
                    }
                }
                self.local_handles = handles;
                true
            },
        }
    }

    /// Records the output channel of the remote session `id`, and hands back
    /// the channel it replaces, if any: one entry per session id.
    pub fn insert_remote(&mut self, id: u64, sender: S) -> (r: Option<S>)
        ensures
            final(self).remote_sessions() == old(self).remote_sessions().insert(id, sender),
            final(self).local_sessions() == old(self).local_sessions(),
            match r {
                Some(s) => old(self).remote_sessions().contains_key(id) && s == old(self).remote_sessions()[id],
                None => !old(self).remote_sessions().contains_key(id),
            },
    {
        proof {
            use_type_invariant(&*self);
        }
        let mut handles = HashMap::new();
        std::mem::swap(&mut handles, &mut self.remote_handles);
        let r = handles.insert(id, sender);
        self.remote_handles = handles;
        r
    }

    /// Removes the remote session `id`, handing back its output channel.
    pub fn remove_remote(&mut self, id: u64) -> (r: Option<S>)
        ensures
            final(self).remote_sessions() == old(self).remote_sessions().remove(id),
            final(self).local_sessions() == old(self).local_sessions(),
            match r {
                Some(s) => old(self).remote_sessions().contains_key(id) && s == old(self).remote_sessions()[id],
                None => !old(self).remote_sessions().contains_key(id),
            },
    {
        proof {
            use_type_invariant(&*self);
        }
        let mut handles = HashMap::new();
        std::mem::swap(&mut handles, &mut self.remote_handles);
        let r = handles.remove(&id);
        self.remote_handles = handles;
        r
    }

    /// Whether the remote session `id` has an output channel.
    pub fn has_remote(&self, id: u64) -> (r: bool)
        ensures
            r == self.remote_sessions().contains_key(id),
    {
        self.remote_handles.contains_key(&id)
    }

    /// The output channel of the remote session `id`.
    pub fn remote_sender(&self, id: u64) -> (r: Option<&S>)
        ensures
            match r {
                Some(s) => self.remote_sessions().contains_key(id) && *s == self.remote_sessions()[id],
                None => !self.remote_sessions().contains_key(id),
            },
    {
        self.remote_handles.get(&id)
    }
}

} // verus!
