//! The two kinds of work a session can have in flight.

use vstd::prelude::*;

verus! {

/// A build of an image, or a run of the tests in one. A session may have
/// one of each in flight at a time, and no more.
#[derive(Clone, Copy, Debug, PartialEq, Eq, Structural)]
pub enum OperationKind {
    Build,
    Test,
}

} // verus!
