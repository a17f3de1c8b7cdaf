use vstd::prelude::*;
use crate::beacon_state::{BeaconState, Fork};
use crate::checkpoint::Checkpoint;
use crate::database::{Lookup, Read};
use crate::handlers::block::{
    block_root_of_id, checkpoint_root, indexed_root, root_from_index, unsupported_id, viewed,
};
use crate::misc::epoch_of;
use crate::primitives::{Address, Root};
use crate::text::joined;
use crate::types::errors::{ApiError, ApiErrorView};
use crate::types::id::{root_debug_string, root_shown, ID};

verus! {

/// The three checkpoints that a state keeps.
#[derive(Debug, Clone, Copy)]
pub struct CheckpointData {
    pub previous_justified: Checkpoint,
    pub current_justified: Checkpoint,
    pub finalized: Checkpoint,
}

impl CheckpointData {
    pub fn new(
        previous_justified: Checkpoint,
        current_justified: Checkpoint,
        finalized: Checkpoint,
    ) -> (data: CheckpointData)
        ensures
            data.previous_justified == previous_justified,
            data.current_justified == current_justified,
            data.finalized == finalized,
    {
        CheckpointData { previous_justified, current_justified, finalized }
    }
}

/// The block root that a state identifier resolves to: as for a block
/// identifier, but that a root names a state and goes through the index of
/// state roots.
pub open spec fn block_root_of_state_id(
    state_id: ID,
    checkpoint: Lookup<Checkpoint>,
    indexed: Lookup<Root>,
) -> Result<Root, ApiErrorView> {
    match state_id {
        ID::Root(_) => root_from_index(indexed, state_id),
        _ => block_root_of_id(state_id, checkpoint, indexed),
    }
}

/// What is to be read to resolve a state identifier.
pub fn state_root_read(state_id: &ID) -> (read: Read)
    ensures
        read == match *state_id {
            ID::Finalized => Read::FinalizedCheckpoint,
            ID::Justified => Read::JustifiedCheckpoint,
            ID::Slot(slot) => Read::SlotIndex(slot),
            ID::Root(state_root) => Read::StateRootIndex(state_root),
            ID::Head | ID::Genesis => Read::Nothing,
        },
{
    match state_id {
        ID::Finalized => Read::FinalizedCheckpoint,
        ID::Justified => Read::JustifiedCheckpoint,
        ID::Slot(slot) => Read::SlotIndex(*slot),
        ID::Root(state_root) => Read::StateRootIndex(*state_root),
        _ => Read::Nothing,
    }
}

/// Resolves a state identifier to the root of the block whose state is
/// meant. `checkpoint` is what the read of the checkpoint that the
/// identifier names gave, `indexed` what the read of the slot index or of
/// the state root index gave; the one that the identifier does not call
/// for is not looked at.
pub fn get_block_root_from_state_id(
    state_id: ID,
    checkpoint: &Lookup<Checkpoint>,
    indexed: &Lookup<Root>,
) -> (block_root: Result<Root, ApiError>)
    ensures
        viewed(block_root) == block_root_of_state_id(state_id, *checkpoint, *indexed),
{
    match state_id {
        ID::Finalized => checkpoint_root(checkpoint, "Finalized checkpoint not found"),
        ID::Justified => checkpoint_root(checkpoint, "Justified checkpoint not found"),
        ID::Head => unsupported_id(&state_id),
        ID::Genesis => unsupported_id(&state_id),
        ID::Slot(_) => indexed_root(indexed, &state_id),
        ID::Root(_) => indexed_root(indexed, &state_id),
    }
}

/// The state that the database gave for `block_root`, or why there is none.
pub fn get_state_from_id(block_root: Root, found: Lookup<BeaconState>) -> (state: Result<
    BeaconState,
    ApiError,
>)
    ensures
        match found {
            Lookup::Failed => state is Err && state->Err_0@ == ApiErrorView::InternalError,
            Lookup::Missing => state is Err && state->Err_0@ == ApiErrorView::NotFound(
                "Failed to find `beacon_state` from "@ + root_shown(block_root),
            ),
            Lookup::Found(stored) => state == Ok::<BeaconState, ApiError>(stored),
        },
{
    match found {
        Lookup::Failed => Err(ApiError::InternalError),
        Lookup::Missing => Err(
            ApiError::NotFound(
                joined(
                    "Failed to find `beacon_state` from ",
                    root_debug_string(&block_root).as_str(),
                ),
            ),
        ),
        Lookup::Found(stored) => Ok(stored),
    }
}

/// The fork of a state.
pub fn get_state_fork(state: &BeaconState) -> (fork: Fork)
    ensures
        fork == state.fork,
{
    state.fork
}

/// The checkpoints of a state.
pub fn get_state_finality_checkpoint(state: &BeaconState) -> (data: CheckpointData)
    ensures
        data.previous_justified == state.previous_justified_checkpoint,
        data.current_justified == state.current_justified_checkpoint,
        data.finalized == state.finalized_checkpoint,
{
    CheckpointData::new(
        state.previous_justified_checkpoint,
        state.current_justified_checkpoint,
        state.finalized_checkpoint,
    )
}

/// The epoch whose randao mix a request asks for: the one it names, else
/// the state's own.
pub fn get_state_randao(state: &BeaconState, epoch: Option<u64>) -> (asked: u64)
    ensures
        asked == match epoch {
            Some(epoch) => epoch,
            None => epoch_of(state.slot),
        },
{
    match epoch {
        Some(epoch) => epoch,
        None => state.get_current_epoch(),
    }
}

/// A withdrawal that the state expects to pay out.
#[derive(Debug, Clone, Copy)]
pub struct Withdrawal {
    pub index: u64,
    pub validator_index: u64,
    pub address: Address,
    pub amount: u64,
}

/// A pending partial withdrawal as the API shows it.
#[derive(Debug, Clone, Copy, PartialEq, Eq, Structural)]
pub struct WithdrawalData {
    pub validator_index: u64,
    pub amount: u64,
    pub withdrawable_epoch: u64,
}

impl Default for WithdrawalData {
    fn default() -> (data: WithdrawalData)
        ensures
            data == (WithdrawalData { validator_index: 0, amount: 0, withdrawable_epoch: 0 }),
    {
        WithdrawalData { validator_index: 0, amount: 0, withdrawable_epoch: 0 }
    }
}

/// The expected withdrawals whose validator is partially withdrawable, in
/// their order, each shown with the current epoch as its withdrawable
/// epoch. `partial[i]` says whether the validator of `withdrawals[i]` is
/// partially withdrawable.
pub open spec fn partial_withdrawals(
    withdrawals: Seq<Withdrawal>,
    partial: Seq<bool>,
    current_epoch: u64,
) -> Seq<WithdrawalData>
    recommends
        withdrawals.len() == partial.len(),
    decreases withdrawals.len(),
{
    if withdrawals.len() == 0 {
        Seq::<WithdrawalData>::empty()
    } else {
        let before = partial_withdrawals(
            withdrawals.drop_last(),
            partial.drop_last(),
            current_epoch,
        );
        if partial.last() {
            before.push(
                WithdrawalData {
                    validator_index: withdrawals.last().validator_index,
                    amount: withdrawals.last().amount,
                    withdrawable_epoch: current_epoch,
                },
            )
        } else {
            before
        }
    }
}

/// The pending partial withdrawals of a state, from the withdrawals that
/// it expects and, for each, whether its validator is partially
/// withdrawable with its balance.
pub fn get_pending_partial_withdrawals(
    state: &BeaconState,
    withdrawals: &Vec<Withdrawal>,
    partial: &Vec<bool>,
) -> (data: Vec<WithdrawalData>)
    requires
        withdrawals@.len() == partial@.len(),
    ensures
        data@ == partial_withdrawals(withdrawals@, partial@, epoch_of(state.slot)),
{
    let current_epoch = state.get_current_epoch();
    let mut data: Vec<WithdrawalData> = Vec::new();
    let mut i: usize = 0;
    while i < withdrawals.len()
        invariant
            i <= withdrawals@.len(),
            withdrawals@.len() == partial@.len(),
            current_epoch == epoch_of(state.slot),
            data@ == partial_withdrawals(
                withdrawals@.subrange(0, i as int),
                partial@.subrange(0, i as int),
                current_epoch,
            ),
        decreases withdrawals@.len() - i,
    {
        proof {
            assert(withdrawals@.subrange(0, i + 1).drop_last() =~= withdrawals@.subrange(
                0,
                i as int,
            ));
            assert(partial@.subrange(0, i + 1).drop_last() =~= partial@.subrange(0, i as int));
        }
        if partial[i] {
            data.push(
                WithdrawalData {
                    validator_index: withdrawals[i].validator_index,
                    amount: withdrawals[i].amount,
                    withdrawable_epoch: current_epoch,
                },
            );
        }
        i += 1;
    }
    proof {
        assert(withdrawals@.subrange(0, i as int) =~= withdrawals@);
        assert(partial@.subrange(0, i as int) =~= partial@);
    }
    data
}

} // verus!
