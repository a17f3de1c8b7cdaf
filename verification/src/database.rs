use vstd::prelude::*;
use crate::primitives::Root;

verus! {

/// What a read of the database gave.
#[derive(Debug)]
pub enum Lookup<T> {
    /// The database could not be read.
    Failed,
    /// The database holds no such entry.
    Missing,
    Found(T),
}

/// What is to be read from the database to resolve an identifier.
#[derive(Debug, Clone, Copy)]
pub enum Read {
    /// Nothing: the identifier resolves by itself, or not at all.
    Nothing,
    /// The finalized checkpoint.
    FinalizedCheckpoint,
    /// The justified checkpoint.
    JustifiedCheckpoint,
    /// The block root that the slot index keeps for this slot.
    SlotIndex(u64),
    /// The block root that the state root index keeps for this state root.
    StateRootIndex(Root),
}

} // verus!
