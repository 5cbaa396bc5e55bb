use vstd::prelude::*;
use crate::ids::ObjectId;
use crate::tree::TreeEntry;

verus! {

/// An entry found at a path: the object's id and the entry's file mode.
#[derive(Clone, Copy, PartialEq, Eq, Structural, Debug)]
pub struct EntryRef {
    pub id: ObjectId,
    pub mode: u32,
}

/// What the object store answered to a workflow's last action.
pub enum Event {
    /// An object id: a resolved revision or ref, a commit's tree, or a
    /// freshly written tree or commit.
    Resolved(ObjectId),
    /// Whether the first commit asked about descends from the second.
    Ancestry(bool),
    /// The commits of a revision range, oldest first.
    Range(Vec<ObjectId>),
    /// The entries of a tree, in store order.
    Listing(Vec<TreeEntry>),
    /// The entry at a path, if there is one.
    Found(Option<EntryRef>),
    /// A push completed.
    Pushed,
}

} // verus!
