use vstd::prelude::*;

verus! {

/// Failures decided by the library itself.
#[derive(Clone, Copy, PartialEq, Eq, Structural, Debug)]
pub enum SyncError {
    /// A module path does not have exactly two non-empty segments.
    ModulePathConstraintViolation,
    /// A subtree that the workflow needs is absent, or is not a tree.
    SubtreeLookupFailure,
    /// A workflow was handed an event that does not answer its last action.
    UnexpectedEvent,
}

} // verus!
