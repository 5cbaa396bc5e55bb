use vstd::prelude::*;

verus! {

/// Content hash of an object in the store: a 20-byte digest, held as its
/// first eight, middle eight and last four bytes, each read big-endian.
#[derive(Clone, Copy, PartialEq, Eq, Structural, Debug)]
pub struct ObjectId {
    pub hi: u64,
    pub mid: u64,
    pub lo: u32,
}

impl ObjectId {
    /// Whether two ids name the same object.
    pub fn same(&self, other: &ObjectId) -> (r: bool)
        ensures
            r == (*self == *other),
    {
        *self == *other
    }
}

} // verus!
