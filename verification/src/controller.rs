//! The two registries of a shell, one for each kind of work.

use vstd::prelude::*;
use crate::kind::OperationKind;
use crate::process::{HandleStatus, ProcessHandle};
use crate::registry::{offered, ProcessRegistry};

verus! {

/// The other kind of work.
pub open spec fn other_kind(kind: OperationKind) -> OperationKind {
    match kind {
        OperationKind::Build => OperationKind::Test,
        OperationKind::Test => OperationKind::Build,
    }
}

/// The processes that the sessions of one shell have in flight: the builds
/// in one registry, the test runs in another. A session may have one of
/// each; what happens to its build never touches its test run.
pub struct SessionController<H> {
    builds: ProcessRegistry<H>,
    tests: ProcessRegistry<H>,
}

impl<H> SessionController<H> {
    /// The processes of one kind in flight, by session.
    pub closed spec fn held(&self, kind: OperationKind) -> Map<Seq<char>, H> {
        match kind {
            OperationKind::Build => self.builds@,
            OperationKind::Test => self.tests@,
        }
    }

    /// A controller with nothing in flight.
    pub fn new() -> (controller: SessionController<H>)
        ensures
            controller.held(OperationKind::Build) == Map::<Seq<char>, H>::empty(),
            controller.held(OperationKind::Test) == Map::<Seq<char>, H>::empty(),
    {
        SessionController { builds: ProcessRegistry::new(), tests: ProcessRegistry::new() }
    }

    /// Whether the session has a process of the kind in flight.
    pub fn is_running(&self, kind: OperationKind, tab_id: &str) -> (running: bool)
        ensures
            running == self.held(kind).contains_key(tab_id@),
    {
        match kind {
            OperationKind::Build => self.builds.is_running(tab_id),
            OperationKind::Test => self.tests.is_running(tab_id),
        }
    }

    /// Stores the handle if the session has no process of the kind in
    /// flight, and hands it back otherwise, changing nothing.
    pub fn try_insert(&mut self, kind: OperationKind, tab_id: String, handle: H) -> (refused:
        Result<(), H>)
        ensures
            final(self).held(other_kind(kind)) == old(self).held(other_kind(kind)),
            (final(self).held(kind), refused is Ok) == offered(
                old(self).held(kind),
                tab_id@,
                handle,
            ),
            match refused {
                Ok(()) => !old(self).held(kind).contains_key(tab_id@) && final(self).held(kind)
                    == old(self).held(kind).insert(tab_id@, handle),
                Err(back) => old(self).held(kind).contains_key(tab_id@) && final(self).held(kind)
                    == old(self).held(kind) && back == handle,
            },
    {
        match kind {
            OperationKind::Build => self.builds.try_insert(tab_id, handle),
            OperationKind::Test => self.tests.try_insert(tab_id, handle),
        }
    }

    /// Takes the handle of the session's process of the kind out of its
    /// registry, if there is one.
    pub fn remove(&mut self, kind: OperationKind, tab_id: &str) -> (taken: Option<H>)
        ensures
            final(self).held(other_kind(kind)) == old(self).held(other_kind(kind)),
            match taken {
                Some(handle) => old(self).held(kind).contains_key(tab_id@) && handle == old(
                    self,
                ).held(kind)[tab_id@] && final(self).held(kind) == old(self).held(kind).remove(
                    tab_id@,
                ),
                None => !old(self).held(kind).contains_key(tab_id@) && final(self).held(kind)
                    == old(self).held(kind),
            },
    {
        match kind {
            OperationKind::Build => self.builds.remove(tab_id),
            OperationKind::Test => self.tests.remove(tab_id),
        }
    }

    /// Looks at the session's process of the kind, if one is in flight. No
    /// entry comes or goes.
    pub fn probe(&mut self, kind: OperationKind, tab_id: &str) -> (seen: Option<
        HandleStatus,
    >) where H: ProcessHandle
        ensures
            seen is Some <==> old(self).held(kind).contains_key(tab_id@),
            final(self).held(other_kind(kind)) == old(self).held(other_kind(kind)),
            final(self).held(kind).dom() == old(self).held(kind).dom(),
            forall|other: Seq<char>|
                other != tab_id@ && old(self).held(kind).contains_key(other) ==> final(self).held(
                    kind,
                )[other] == old(self).held(kind)[other],
    {
        match kind {
            OperationKind::Build => self.builds.probe(tab_id),
            OperationKind::Test => self.tests.probe(tab_id),
        }
    }
}

} // verus!
