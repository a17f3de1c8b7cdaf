use vstd::prelude::*;

verus! {

/// Seconds in one slot.
pub const SECONDS_PER_SLOT: u64 = 12;

/// Number of intervals a slot is divided into; attestations are due after
/// the first one.
pub const INTERVALS_PER_SLOT: u64 = 3;

/// Slots in one epoch.
pub const SLOTS_PER_EPOCH: u64 = 32;

} // verus!
