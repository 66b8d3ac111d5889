use vstd::prelude::*;

verus! {

/// A chain height: a revision number and a block height within that revision.
///
/// Heights are ordered by revision first, then by block height.
#[derive(Debug, Clone, Copy, PartialEq, Eq, Structural)]
pub struct Height {
    pub revision_number: u64,
    pub revision_height: u64,
}

impl Height {
    pub fn new(revision_number: u64, revision_height: u64) -> (h: Height)
        ensures
            h.revision_number == revision_number,
            h.revision_height == revision_height,
    {
        Height { revision_number, revision_height }
    }
}

} // verus!
