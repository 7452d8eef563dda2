//! The registry of processes in flight: for each session at most one.

use vstd::prelude::*;
use crate::process::{HandleStatus, ProcessHandle};

verus! {

/// Whether one of `entries` belongs to the session `key`.
spec fn holds<H>(entries: Seq<(String, H)>, key: Seq<char>) -> bool {
    exists|i: int| 0 <= i < entries.len() && (#[trigger] entries[i]).0@ == key
}

/// Where among `entries` the session `key` has its entry.
spec fn place_of<H>(entries: Seq<(String, H)>, key: Seq<char>) -> int {
    choose|i: int| 0 <= i < entries.len() && (#[trigger] entries[i]).0@ == key
}

/// No session has two of `entries`.
spec fn single_flight<H>(entries: Seq<(String, H)>) -> bool {
    forall|i: int, j: int|
        #![trigger entries[i], entries[j]]
        0 <= i < j < entries.len() ==> entries[i].0@ != entries[j].0@
}

/// The sessions of `entries`, each with its handle.
spec fn as_map<H>(entries: Seq<(String, H)>) -> Map<Seq<char>, H> {
    Map::new(|key: Seq<char>| holds(entries, key), |key: Seq<char>| entries[place_of(entries, key)].1)
}

/// What an offer of a handle for a session makes of a registry, and
/// whether the offer is taken: it is taken exactly if the session has no
/// entry, and a refused offer changes nothing.
pub open spec fn offered<H>(held: Map<Seq<char>, H>, session: Seq<char>, handle: H) -> (
    Map<Seq<char>, H>,
    bool,
) {
    if held.contains_key(session) {
        (held, false)
    } else {
        (held.insert(session, handle), true)
    }
}

/// What a run of offers for one session makes of a registry, one offer
/// after the other as the lock lets them in, and which of them are taken.
pub open spec fn offered_all<H>(held: Map<Seq<char>, H>, session: Seq<char>, handles: Seq<H>) -> (
    Map<Seq<char>, H>,
    Seq<bool>,
)
    decreases handles.len(),
{
    if handles.len() == 0 {
        (held, Seq::empty())
    } else {
        let first = offered(held, session, handles[0]);
        let rest = offered_all(first.0, session, handles.drop_first());
        (rest.0, seq![first.1] + rest.1)
    }
}

/// How many of the offers were taken.
pub open spec fn taken_count(outcomes: Seq<bool>) -> nat
    decreases outcomes.len(),
{
    if outcomes.len() == 0 {
        0
    } else {
        (if outcomes[0] {
            1nat
        } else {
            0nat
        }) + taken_count(outcomes.drop_first())
    }
}

/// Of any number of offers for a session that has an entry, none is
/// taken, and the registry stays as it is.
pub proof fn lemma_taken_session_refuses_all<H>(
    held: Map<Seq<char>, H>,
    session: Seq<char>,
    handles: Seq<H>,
)
    requires
        held.contains_key(session),
    ensures
        offered_all(held, session, handles).0 == held,
        offered_all(held, session, handles).1.len() == handles.len(),
        taken_count(offered_all(held, session, handles).1) == 0,
        forall|i: int| 0 <= i < handles.len() ==> !offered_all(held, session, handles).1[i],
    decreases handles.len(),
{
    if handles.len() > 0 {
        let rest = offered_all(held, session, handles.drop_first());
        lemma_taken_session_refuses_all(held, session, handles.drop_first());
        let all = offered_all(held, session, handles).1;
        assert(all.drop_first() =~= rest.1);
        assert forall|i: int| 0 <= i < handles.len() implies !all[i] by {
            if i > 0 {
                assert(all[i] == rest.1[i - 1]);
            }
        }
    }
}

/// Single flight: of any number of offers for one session that has no
/// entry, exactly one is taken, the first to get in, and every other is
/// refused. The registry then holds the first one's handle for the
/// session, and is otherwise as it was.
pub proof fn lemma_single_flight<H>(held: Map<Seq<char>, H>, session: Seq<char>, handles: Seq<H>)
    requires
        !held.contains_key(session),
        handles.len() >= 1,
    ensures
        offered_all(held, session, handles).0 == held.insert(session, handles[0]),
        offered_all(held, session, handles).1.len() == handles.len(),
        taken_count(offered_all(held, session, handles).1) == 1,
        offered_all(held, session, handles).1[0],
        forall|i: int| 1 <= i < handles.len() ==> !offered_all(held, session, handles).1[i],
{
    let first = offered(held, session, handles[0]);
    let rest = offered_all(first.0, session, handles.drop_first());
    lemma_taken_session_refuses_all(first.0, session, handles.drop_first());
    let all = offered_all(held, session, handles).1;
    assert(all.drop_first() =~= rest.1);
    assert forall|i: int| 1 <= i < handles.len() implies !all[i] by {
        assert(all[i] == rest.1[i - 1]);
    }
}

/// Whatever the registry holds, at most one of any number of offers for
/// one session is taken.
pub proof fn lemma_at_most_one_taken<H>(
    held: Map<Seq<char>, H>,
    session: Seq<char>,
    handles: Seq<H>,
)
    ensures
        taken_count(offered_all(held, session, handles).1) <= 1,
{
    if held.contains_key(session) {
        lemma_taken_session_refuses_all(held, session, handles);
    } else if handles.len() >= 1 {
        lemma_single_flight(held, session, handles);
    }
}

/// The handles of the processes of one kind that are in flight, by
/// session. A session has at most one entry: `try_insert` is the only way
/// in, and it refuses a session that has one. The entries are kept in a
/// vector that is searched by session, since vstd gives the hash map of
/// the standard library no model for keys that are strings; that no
/// session occurs twice is the invariant of the type.
pub struct ProcessRegistry<H> {
    entries: Vec<(String, H)>,
}

impl<H> View for ProcessRegistry<H> {
    type V = Map<Seq<char>, H>;

    closed spec fn view(&self) -> Map<Seq<char>, H> {
        as_map(self.entries@)
    }
}

impl<H> ProcessRegistry<H> {
    /// What every registry keeps: no session has two entries.
    #[verifier::type_invariant]
    spec fn well_formed(&self) -> bool {
        single_flight(self.entries@)
    }

    /// A registry with no process in flight.
    pub fn new() -> (registry: ProcessRegistry<H>)
        ensures
            registry@ == Map::<Seq<char>, H>::empty(),
    {
        let registry = ProcessRegistry { entries: Vec::new() };
        assert(registry@ =~= Map::<Seq<char>, H>::empty());
        registry
    }

    /// Where the session has its entry.
    fn position(&self, session: &str) -> (found: Option<usize>)
        ensures
            match found {
                Some(i) => i < self.entries@.len() && self.entries@[i as int].0@ == session@,
                None => !holds(self.entries@, session@),
            },
    {
        let wanted = session.to_owned();
        let mut i: usize = 0;
        while i < self.entries.len()
            invariant
                i <= self.entries@.len(),
                wanted@ == session@,
                forall|k: int| 0 <= k < i ==> (#[trigger] self.entries@[k]).0@ != session@,
            decreases self.entries.len() - i,
        {
            if self.entries[i].0 == wanted {
                return Some(i);
            }
            i = i + 1;
        }
        None
    }

    /// Whether the session has a process in flight.
    pub fn is_running(&self, session: &str) -> (running: bool)
        ensures
            running == self@.contains_key(session@),
    {
        self.position(session).is_some()
    }

    /// Stores the handle if the session has no process in flight, and
    /// hands it back otherwise, leaving the registry as it was.
    pub fn try_insert(&mut self, session: String, handle: H) -> (refused: Result<(), H>)
        ensures
            (final(self)@, refused is Ok) == offered(old(self)@, session@, handle),
            match refused {
                Ok(()) => !old(self)@.contains_key(session@) && final(self)@ == old(self)@.insert(
                    session@,
                    handle,
                ),
                Err(back) => old(self)@.contains_key(session@) && final(self)@ == old(self)@
                    && back == handle,
            },
    {
        proof {
            use_type_invariant(&*self);
        }
        match self.position(session.as_str()) {
            Some(_) => Err(handle),
            None => {
                let ghost before = self.entries@;
                let ghost key = session@;
                let mut entries: Vec<(String, H)> = Vec::new();
                core::mem::swap(&mut self.entries, &mut entries);
                entries.push((session, handle));
                proof {
                    let after = entries@;
                    assert(after[before.len() as int].0@ == key);
                    assert forall|k: Seq<char>| holds(after, k) <==> (k == key || holds(
                        before,
                        k,
                    )) by {
                        if holds(before, k) {
                            let i = place_of(before, k);
                            assert(after[i] == before[i]);
                        }
                        if holds(after, k) && k != key {
                            let i = place_of(after, k);
                            assert(before[i] == after[i]);
                        }
                    }
                    assert forall|k: Seq<char>| holds(after, k) implies #[trigger] as_map(after)[k]
                        == as_map(before).insert(key, handle)[k] by {
                        let i = place_of(after, k);
                        if k != key {
                            let j = place_of(before, k);
                            assert(after[j] == before[j]);
                        }
                    }
                    assert(as_map(after) =~= as_map(before).insert(key, handle));
                    assert forall|i: int, j: int| 0 <= i < j < after.len() implies after[i].0@
                        != after[j].0@ by {
                        if j < before.len() {
                            assert(after[i] == before[i] && after[j] == before[j]);
                        } else {
                            assert(after[i] == before[i]);
                        }
                    }
                }
                core::mem::swap(&mut self.entries, &mut entries);
                Ok(())
            },
        }
    }

    /// Takes the session's handle out of the registry, if it has one.
    pub fn remove(&mut self, session: &str) -> (taken: Option<H>)
        ensures
            match taken {
                Some(handle) => old(self)@.contains_key(session@) && handle == old(self)@[session@]
                    && final(self)@ == old(self)@.remove(session@),
                None => !old(self)@.contains_key(session@) && final(self)@ == old(self)@,
            },
    {
        proof {
            use_type_invariant(&*self);
        }
        match self.position(session) {
            None => None,
            Some(at) => {
                let ghost before = self.entries@;
                let mut entries: Vec<(String, H)> = Vec::new();
                core::mem::swap(&mut self.entries, &mut entries);
                let entry = entries.remove(at);
                proof {
                    let after = entries@;
                    let key = session@;
                    assert(before[at as int].0@ == key);
                    assert(place_of(before, key) == at);
                    assert forall|k: Seq<char>| holds(after, k) <==> (k != key && holds(
                        before,
                        k,
                    )) by {
                        if holds(after, k) {
                            let i = place_of(after, k);
                            if i < at {
                                assert(after[i] == before[i]);
                            } else {
                                assert(after[i] == before[i + 1]);
                            }
                        }
                        if holds(before, k) && k != key {
                            let i = place_of(before, k);
                            if i < at {
                                assert(after[i] == before[i]);
                            } else {
                                assert(after[i - 1] == before[i]);
                            }
                        }
                    }
                    assert forall|k: Seq<char>| holds(after, k) implies #[trigger] as_map(after)[k]
                        == as_map(before)[k] by {
                        let i = place_of(after, k);
                        let j = place_of(before, k);
                        if i < at {
                            assert(after[i] == before[i]);
                        } else {
                            assert(after[i] == before[i + 1]);
                        }
                    }
                    assert(as_map(after) =~= as_map(before).remove(key));
                    assert forall|i: int, j: int| 0 <= i < j < after.len() implies after[i].0@
                        != after[j].0@ by {
                        let ii = if i < at { i } else { i + 1 };
                        let jj = if j < at { j } else { j + 1 };
                        assert(after[i] == before[ii]);
                        assert(after[j] == before[jj]);
                    }
                }
                core::mem::swap(&mut self.entries, &mut entries);
                Some(entry.1)
            },
        }
    }

    /// Looks at the process of the session, if it has one in flight. The
    /// registry keeps the handle, and every other session's entry is as
    /// it was.
    pub fn probe(&mut self, session: &str) -> (seen: Option<HandleStatus>) where H: ProcessHandle
        ensures
            seen is Some <==> old(self)@.contains_key(session@),
            final(self)@.dom() == old(self)@.dom(),
            forall|other: Seq<char>|
                other != session@ && old(self)@.contains_key(other) ==> final(self)@[other] == old(
                    self,
                )@[other],
    {
        proof {
            use_type_invariant(&*self);
        }
        match self.position(session) {
            None => None,
            Some(at) => {
                let ghost before = self.entries@;
                let ghost key = session@;
                let mut entries: Vec<(String, H)> = Vec::new();
                core::mem::swap(&mut self.entries, &mut entries);
                let mut entry = entries.remove(at);
                let status = entry.1.status();
                let ghost middle = entries@;
                entries.push(entry);
                proof {
                    let after = entries@;
                    let last = middle.len() as int;
                    assert(after[last].0@ == key);
                    assert forall|i: int| 0 <= i < middle.len() implies middle[i] == before[if i
                        < at {
                        i
                    } else {
                        i + 1
                    }] && after[i] == middle[i] by {}
                    assert forall|k: Seq<char>| holds(after, k) <==> holds(before, k) by {
                        if holds(after, k) {
                            let i = place_of(after, k);
                            if i < last {
                                let ii = if i < at { i } else { i + 1 };
                                assert(before[ii] == after[i]);
                            } else {
                                assert(before[at as int].0@ == k);
                            }
                        }
                        if holds(before, k) {
                            let i = place_of(before, k);
                            if i == at {
                                assert(after[last].0@ == k);
                            } else {
                                let ii = if i < at { i } else { i - 1 };
                                assert(after[ii] == before[i]);
                            }
                        }
                    }
                    assert forall|i: int, j: int| 0 <= i < j < after.len() implies after[i].0@
                        != after[j].0@ by {
                        let ii = if i < at { i } else { i + 1 };
                        assert(after[i] == before[ii]);
                        if j < last {
                            let jj = if j < at { j } else { j + 1 };
                            assert(after[j] == before[jj]);
                        } else {
                            assert(before[at as int].0@ == after[j].0@);
                        }
                    }
                    assert forall|other: Seq<char>|
                        other != key && holds(before, other) implies as_map(after)[other]
                        == as_map(before)[other] by {
                        let i = place_of(before, other);
                        let ii = if i < at { i } else { i - 1 };
                        assert(after[ii] == before[i]);
                        let j = place_of(after, other);
                        assert(j == ii);
                    }
                    assert(as_map(after).dom() =~= as_map(before).dom());
                }
                core::mem::swap(&mut self.entries, &mut entries);
                Some(status)
            },
        }
    }
}

} // verus!
