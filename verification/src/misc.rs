use vstd::prelude::*;
use crate::constants::SLOTS_PER_EPOCH;

verus! {

/// The epoch that a slot belongs to.
pub open spec fn epoch_of(slot: u64) -> u64 {
    slot / SLOTS_PER_EPOCH
}

/// The first slot of an epoch, as a mathematical integer: for the highest
/// epochs it lies beyond every slot a `u64` can hold.
pub open spec fn start_slot_of(epoch: u64) -> int {
    epoch * SLOTS_PER_EPOCH
}

pub fn compute_epoch_at_slot(slot: u64) -> (epoch: u64)
    ensures
        epoch == epoch_of(slot),
{
    slot / SLOTS_PER_EPOCH
}

pub fn compute_start_slot_at_epoch(epoch: u64) -> (slot: u64)
    requires
        start_slot_of(epoch) <= u64::MAX,
    ensures
        slot == start_slot_of(epoch),
{
    epoch * SLOTS_PER_EPOCH
}

/// Whether `slot` lies after the first slot of `epoch`; never overflows.
pub fn slot_is_after_epoch_start(slot: u64, epoch: u64) -> (after: bool)
    ensures
        after == (slot > start_slot_of(epoch)),
{
    epoch <= u64::MAX / SLOTS_PER_EPOCH && slot > epoch * SLOTS_PER_EPOCH
}

} // verus!
