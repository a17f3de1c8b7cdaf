use vstd::prelude::*;
use vstd::string::StringExecFns;
use crate::beacon_block::SignedBeaconBlock;
use crate::checkpoint::Checkpoint;
use crate::database::{Lookup, Read};
use crate::primitives::Root;
use crate::text::joined;
use crate::types::errors::{ApiError, ApiErrorView};
use crate::types::id::{root_debug_string, root_shown, ID};
use crate::types::response::{BeaconResponse, RootResponse};

verus! {

/// What a block earned its proposer, part by part.
#[derive(Debug)]
pub struct BlockRewards {
    pub proposer_index: u64,
    pub total: i64,
    pub attestations: u64,
    pub sync_aggregate: u64,
    pub proposer_slashings: u64,
    pub attester_slashings: u64,
}

impl Default for BlockRewards {
    fn default() -> (rewards: BlockRewards)
        ensures
            rewards.proposer_index == 0,
            rewards.total == 0,
            rewards.attestations == 0,
            rewards.sync_aggregate == 0,
            rewards.proposer_slashings == 0,
            rewards.attester_slashings == 0,
    {
        BlockRewards {
            proposer_index: 0,
            total: 0,
            attestations: 0,
            sync_aggregate: 0,
            proposer_slashings: 0,
            attester_slashings: 0,
        }
    }
}

/// The answer for an identifier that a read of a checkpoint resolves.
pub open spec fn root_from_checkpoint(
    checkpoint: Lookup<Checkpoint>,
    missing: Seq<char>,
) -> Result<Root, ApiErrorView> {
    match checkpoint {
        Lookup::Failed => Err(ApiErrorView::InternalError),
        Lookup::Missing => Err(ApiErrorView::NotFound(missing)),
        Lookup::Found(found) => Ok(found.root),
    }
}

/// The answer for an identifier that a read of an index resolves.
pub open spec fn root_from_index(indexed: Lookup<Root>, id: ID) -> Result<Root, ApiErrorView> {
    match indexed {
        Lookup::Failed => Err(ApiErrorView::InternalError),
        Lookup::Missing => Err(
            ApiErrorView::NotFound("Failed to find `block_root` from "@ + id.shown()),
        ),
        Lookup::Found(root) => Ok(root),
    }
}

/// The answer for the two names that are not served yet.
pub open spec fn unsupported(id: ID) -> Result<Root, ApiErrorView> {
    Err(ApiErrorView::NotFound("This ID type is currently not supported: "@ + id.shown()))
}

/// The block root that a block identifier resolves to: `finalized` and
/// `justified` to the root of the stored checkpoint, a slot through the
/// slot index, a root to itself.
pub open spec fn block_root_of_id(
    block_id: ID,
    checkpoint: Lookup<Checkpoint>,
    indexed: Lookup<Root>,
) -> Result<Root, ApiErrorView> {
    match block_id {
        ID::Finalized => root_from_checkpoint(checkpoint, "Finalized checkpoint not found"@),
        ID::Justified => root_from_checkpoint(checkpoint, "Justified checkpoint not found"@),
        ID::Head | ID::Genesis => unsupported(block_id),
        ID::Slot(_) => root_from_index(indexed, block_id),
        ID::Root(root) => Ok(root),
    }
}

/// A result with its error taken by its view.
pub open spec fn viewed<T>(result: Result<T, ApiError>) -> Result<T, ApiErrorView> {
    match result {
        Ok(value) => Ok(value),
        Err(e) => Err(e@),
    }
}

pub(crate) fn checkpoint_root(found: &Lookup<Checkpoint>, missing: &str) -> (root: Result<
    Root,
    ApiError,
>)
    ensures
        viewed(root) == root_from_checkpoint(*found, missing@),
{
    match found {
        Lookup::Failed => Err(ApiError::InternalError),
        Lookup::Missing => Err(ApiError::NotFound(String::from_str(missing))),
        Lookup::Found(checkpoint) => Ok(checkpoint.root),
    }
}

pub(crate) fn indexed_root(found: &Lookup<Root>, id: &ID) -> (root: Result<Root, ApiError>)
    ensures
        viewed(root) == root_from_index(*found, *id),
{
    match found {
        Lookup::Failed => Err(ApiError::InternalError),
        Lookup::Missing => Err(
            ApiError::NotFound(
                joined("Failed to find `block_root` from ", id.debug_string().as_str()),
            ),
        ),
        Lookup::Found(root) => Ok(*root),
    }
}

pub(crate) fn unsupported_id(id: &ID) -> (root: Result<Root, ApiError>)
    ensures
        viewed(root) == unsupported(*id),
{
    Err(
        ApiError::NotFound(
            joined("This ID type is currently not supported: ", id.debug_string().as_str()),
        ),
    )
}

/// What is to be read to resolve a block identifier.
pub fn block_root_read(block_id: &ID) -> (read: Read)
    ensures
        read == match *block_id {
            ID::Finalized => Read::FinalizedCheckpoint,
            ID::Justified => Read::JustifiedCheckpoint,
            ID::Slot(slot) => Read::SlotIndex(slot),
            ID::Head | ID::Genesis | ID::Root(_) => Read::Nothing,
        },
{
    match block_id {
        ID::Finalized => Read::FinalizedCheckpoint,
        ID::Justified => Read::JustifiedCheckpoint,
        ID::Slot(slot) => Read::SlotIndex(*slot),
        _ => Read::Nothing,
    }
}

/// Resolves a block identifier to a block root. `checkpoint` is what the
/// read of the checkpoint that the identifier names gave, `indexed` what
/// the read of the slot index gave; the one that the identifier does not
/// call for is not looked at.
pub fn get_block_root_from_id(
    block_id: ID,
    checkpoint: &Lookup<Checkpoint>,
    indexed: &Lookup<Root>,
) -> (block_root: Result<Root, ApiError>)
    ensures
        viewed(block_root) == block_root_of_id(block_id, *checkpoint, *indexed),
{
    match block_id {
        ID::Finalized => checkpoint_root(checkpoint, "Finalized checkpoint not found"),
        ID::Justified => checkpoint_root(checkpoint, "Justified checkpoint not found"),
        ID::Head => unsupported_id(&block_id),
        ID::Genesis => unsupported_id(&block_id),
        ID::Slot(_) => indexed_root(indexed, &block_id),
        ID::Root(root) => Ok(root),
    }
}

/// The block that the database gave for `block_root`, or why there is none.
pub fn get_beacon_block_from_id(block_root: Root, found: Lookup<SignedBeaconBlock>) -> (block:
    Result<SignedBeaconBlock, ApiError>)
    ensures
        match found {
            Lookup::Failed => block is Err && block->Err_0@ == ApiErrorView::InternalError,
            Lookup::Missing => block is Err && block->Err_0@ == ApiErrorView::NotFound(
                "Failed to find `beacon block` from "@ + root_shown(block_root),
            ),
            Lookup::Found(stored) => block == Ok::<SignedBeaconBlock, ApiError>(stored),
        },
{
    match found {
        Lookup::Failed => Err(ApiError::InternalError),
        Lookup::Missing => Err(
            ApiError::NotFound(
                joined(
                    "Failed to find `beacon block` from ",
                    root_debug_string(&block_root).as_str(),
                ),
            ),
        ),
        Lookup::Found(stored) => Ok(stored),
    }
}

/// The answer to a request for a block's root.
pub fn get_block_root(block_root: Root) -> (response: BeaconResponse<RootResponse>)
    ensures
        response.data.root == block_root,
        !response.execution_optimistic,
        !response.finalized,
{
    BeaconResponse::from(RootResponse { root: block_root })
}

/// The answer to a request for a block's rewards: who proposed it and how
/// many items of each rewarded kind its body holds. The total is not
/// worked out and stands at zero.
pub fn get_block_rewards(beacon_block: &SignedBeaconBlock) -> (response: BeaconResponse<
    BlockRewards,
>)
    ensures
        response.data.proposer_index == beacon_block.message.proposer_index,
        response.data.total == 0,
        response.data.attestations == beacon_block.message.body.attestations,
        response.data.sync_aggregate == beacon_block.message.body.sync_committee_bits,
        response.data.proposer_slashings == beacon_block.message.body.proposer_slashings,
        response.data.attester_slashings == beacon_block.message.body.attester_slashings,
        !response.execution_optimistic,
        !response.finalized,
{
    let response = BlockRewards {
        proposer_index: beacon_block.message.proposer_index,
        total: 0,
        attestations: beacon_block.message.body.attestations,
        sync_aggregate: beacon_block.message.body.sync_committee_bits,
        proposer_slashings: beacon_block.message.body.proposer_slashings,
        attester_slashings: beacon_block.message.body.attester_slashings,
    };
    BeaconResponse::from(response)
}

} // verus!
