use vstd::prelude::*;

verus! {

/// The failures that the scheduling logic itself can report.
#[derive(Debug, Clone, Copy, PartialEq, Eq, Structural)]
pub enum LinkError {
    /// An interactive command was asked to run on a path whose connection delay is not zero.
    NonZeroConnectionDelay,
    /// The number of blocks still to wait does not fit the resolver's 32-bit block counter.
    BlocksOutOfRange { blocks_left: u128 },
}

} // verus!
