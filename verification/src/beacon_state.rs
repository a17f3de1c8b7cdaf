use vstd::prelude::*;
use crate::beacon_block::copy_of;
use crate::checkpoint::Checkpoint;
use crate::misc::{compute_epoch_at_slot, epoch_of};
use crate::primitives::{PubKey, Root};

verus! {

/// The fork versions in force around a fork epoch.
#[derive(Clone, Copy, Debug)]
pub struct Fork {
    pub previous_version: [u8; 4],
    pub current_version: [u8; 4],
    pub epoch: u64,
}

/// One entry of the validator registry.
#[derive(Clone, Copy, Debug)]
pub struct Validator {
    pub pubkey: PubKey,
    pub withdrawal_credentials: Root,
    pub effective_balance: u64,
    pub slashed: bool,
    pub activation_eligibility_epoch: u64,
    pub activation_epoch: u64,
    pub exit_epoch: u64,
    pub withdrawable_epoch: u64,
}

/// What the fork choice and its readers look at in the state that a block
/// leaves behind.
#[derive(Debug)]
pub struct BeaconState {
    pub slot: u64,
    pub fork: Fork,
    pub previous_justified_checkpoint: Checkpoint,
    pub current_justified_checkpoint: Checkpoint,
    pub finalized_checkpoint: Checkpoint,
    pub validators: Vec<Validator>,
    pub balances: Vec<u64>,
}

pub struct BeaconStateView {
    pub slot: u64,
    pub fork: Fork,
    pub previous_justified_checkpoint: Checkpoint,
    pub current_justified_checkpoint: Checkpoint,
    pub finalized_checkpoint: Checkpoint,
    pub validators: Seq<Validator>,
    pub balances: Seq<u64>,
}

impl View for BeaconState {
    type V = BeaconStateView;

    open spec fn view(&self) -> BeaconStateView {
        BeaconStateView {
            slot: self.slot,
            fork: self.fork,
            previous_justified_checkpoint: self.previous_justified_checkpoint,
            current_justified_checkpoint: self.current_justified_checkpoint,
            finalized_checkpoint: self.finalized_checkpoint,
            validators: self.validators@,
            balances: self.balances@,
        }
    }
}

impl Clone for BeaconState {
    fn clone(&self) -> (copy: BeaconState)
        ensures
            copy@ == self@,
    {
        BeaconState {
            slot: self.slot,
            fork: self.fork,
            previous_justified_checkpoint: self.previous_justified_checkpoint,
            current_justified_checkpoint: self.current_justified_checkpoint,
            finalized_checkpoint: self.finalized_checkpoint,
            validators: copy_of(&self.validators),
            balances: copy_of(&self.balances),
        }
    }
}

impl BeaconState {
    /// The epoch of the state's slot.
    pub fn get_current_epoch(&self) -> (epoch: u64)
        ensures
            epoch == epoch_of(self.slot),
    {
        compute_epoch_at_slot(self.slot)
    }
}

} // verus!
