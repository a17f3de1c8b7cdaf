use vstd::prelude::*;
use crate::ancestry::{ancestor_of, checkpoint_block_of, walk};
use crate::beacon_block::{BeaconBlock, BeaconBlockView, SignedBeaconBlock};
use crate::beacon_state::{BeaconState, BeaconStateView};
use crate::checkpoint::{upgraded, Checkpoint};
use crate::constants::{INTERVALS_PER_SLOT, SECONDS_PER_SLOT, SLOTS_PER_EPOCH};
use crate::data_availability::{availability, check_availability, BlobReport};
use crate::merkle::block_root_of;
use crate::misc::{compute_epoch_at_slot, epoch_of, slot_is_after_epoch_start, start_slot_of};
use crate::primitives::Root;
use crate::store::{Store, StoreView};

verus! {

/// Why a block was not taken in, or why a question about one has no answer.
#[derive(Clone, Copy, Debug, PartialEq, Eq, Structural)]
pub enum ForkChoiceError {
    /// The parent block has not been taken in yet.
    UnknownParent,
    /// The block's slot has not begun.
    BlockFromFuture,
    /// The block is not later than the finalized slot.
    BeforeFinalized,
    /// The block's chain does not pass through the finalized block.
    NotDescendantOfFinalized,
    /// A blob of the block could not be had from the execution engine.
    BlobsUnavailable,
    /// The blobs did not verify against the block's commitments.
    BlobProofInvalid,
    /// The state transition rejected the block.
    TransitionError,
    /// The store holds no block under the given root.
    UnknownBlock,
}

/// The checkpoints of a block's state after justification and finalization
/// have been run on a copy of it ahead of the epoch's end.
#[derive(Clone, Copy, Debug)]
pub struct PulledUpTip {
    pub justified_checkpoint: Checkpoint,
    pub finalized_checkpoint: Checkpoint,
}

/// What the node's collaborators report about one candidate block.
#[derive(Debug)]
pub struct BlockReport {
    pub blobs: BlobReport,
    /// The parent's state taken through the block by the state transition;
    /// `None` where the transition rejected the block.
    pub post_state: Option<BeaconState>,
    /// What pulling up justification and finalization on a copy of the
    /// post-state gave; `None` where that step failed.
    pub pulled_up: Option<PulledUpTip>,
}

/// The ancestor of `root` at `slot`: the walk goes from block to parent
/// until it stands on a block that is not later than `slot`, or on a root
/// that names no block of the store. It is given as many steps as the
/// store has blocks.
pub fn get_ancestor(store: &Store, root: Root, slot: u64) -> (ancestor: Root)
    ensures
        ancestor == ancestor_of(store@.blocks, root, slot as int),
{
    let steps = store.blocks.len();
    assert(store@.blocks.dom() =~= store.blocks.map().dom());
    let mut current = root;
    let mut taken: usize = 0;
    while taken < steps
        invariant
            taken <= steps,
            steps == store@.blocks.dom().len(),
            walk(store@.blocks, current, slot as int, (steps - taken) as nat) == ancestor_of(
                store@.blocks,
                root,
                slot as int,
            ),
        decreases steps - taken,
    {
        match store.blocks.get(&current) {
            Some(block) => {
                if block.slot > slot {
                    current = block.parent_root;
                } else {
                    return current;
                }
            },
            None => {
                return current;
            },
        }
        taken += 1;
    }
    current
}

/// Compute the checkpoint block for epoch `epoch` in the chain of block `root`.
pub fn get_checkpoint_block(store: &Store, root: Root, epoch: u64) -> (block_root: Root)
    ensures
        block_root == checkpoint_block_of(store@.blocks, root, epoch),
{
    if epoch > u64::MAX / SLOTS_PER_EPOCH {
        // No slot reaches the start of such an epoch.
        root
    } else {
        get_ancestor(store, root, epoch * SLOTS_PER_EPOCH)
    }
}

/// The store with each of the two checkpoints replaced where the candidate
/// has a higher epoch.
pub open spec fn with_checkpoints(
    store: StoreView,
    justified_checkpoint: Checkpoint,
    finalized_checkpoint: Checkpoint,
) -> StoreView {
    StoreView {
        justified_checkpoint: upgraded(store.justified_checkpoint, justified_checkpoint),
        finalized_checkpoint: upgraded(store.finalized_checkpoint, finalized_checkpoint),
        ..store
    }
}

/// The store with each of the two unrealized checkpoints replaced where the
/// candidate has a higher epoch.
pub open spec fn with_unrealized_checkpoints(
    store: StoreView,
    unrealized_justified_checkpoint: Checkpoint,
    unrealized_finalized_checkpoint: Checkpoint,
) -> StoreView {
    StoreView {
        unrealized_justified_checkpoint: upgraded(
            store.unrealized_justified_checkpoint,
            unrealized_justified_checkpoint,
        ),
        unrealized_finalized_checkpoint: upgraded(
            store.unrealized_finalized_checkpoint,
            unrealized_finalized_checkpoint,
        ),
        ..store
    }
}

/// Update checkpoints in store if necessary.
pub fn update_checkpoints(
    store: &mut Store,
    justified_checkpoint: Checkpoint,
    finalized_checkpoint: Checkpoint,
)
    ensures
        final(store)@ == with_checkpoints(old(store)@, justified_checkpoint, finalized_checkpoint),
        final(store)@.justified_checkpoint.epoch >= old(store)@.justified_checkpoint.epoch,
        final(store)@.finalized_checkpoint.epoch >= old(store)@.finalized_checkpoint.epoch,
{
    if justified_checkpoint.epoch > store.justified_checkpoint.epoch {
        store.justified_checkpoint = justified_checkpoint;
    }
    if finalized_checkpoint.epoch > store.finalized_checkpoint.epoch {
        store.finalized_checkpoint = finalized_checkpoint;
    }
}

/// Update unrealized checkpoints in store if necessary.
pub fn update_unrealized_checkpoints(
    store: &mut Store,
    unrealized_justified_checkpoint: Checkpoint,
    unrealized_finalized_checkpoint: Checkpoint,
)
    ensures
        final(store)@ == with_unrealized_checkpoints(
            old(store)@,
            unrealized_justified_checkpoint,
            unrealized_finalized_checkpoint,
        ),
        final(store)@.unrealized_justified_checkpoint.epoch >= old(
            store,
        )@.unrealized_justified_checkpoint.epoch,
        final(store)@.unrealized_finalized_checkpoint.epoch >= old(
            store,
        )@.unrealized_finalized_checkpoint.epoch,
{
    if unrealized_justified_checkpoint.epoch > store.unrealized_justified_checkpoint.epoch {
        store.unrealized_justified_checkpoint = unrealized_justified_checkpoint;
    }
    if unrealized_finalized_checkpoint.epoch > store.unrealized_finalized_checkpoint.epoch {
        store.unrealized_finalized_checkpoint = unrealized_finalized_checkpoint;
    }
}

/// The epoch in which the store's clock stands.
pub fn get_current_store_epoch(store: &Store) -> (epoch: u64)
    requires
        store.genesis_time <= store.time,
    ensures
        epoch == store@.current_epoch(),
{
    compute_epoch_at_slot(store.get_current_slot())
}

/// None of the four checkpoints of `after` has a lower epoch than in `before`.
pub open spec fn checkpoints_not_lowered(before: StoreView, after: StoreView) -> bool {
    &&& before.justified_checkpoint.epoch <= after.justified_checkpoint.epoch
    &&& before.finalized_checkpoint.epoch <= after.finalized_checkpoint.epoch
    &&& before.unrealized_justified_checkpoint.epoch <= after.unrealized_justified_checkpoint.epoch
    &&& before.unrealized_finalized_checkpoint.epoch <= after.unrealized_finalized_checkpoint.epoch
}

/// The store after the pulled-up checkpoints of the block under
/// `block_root` are taken in: they are recorded for the block, they upgrade
/// the unrealized checkpoints, and, where the block is from an epoch before
/// the current one, the realized checkpoints too.
pub open spec fn with_pulled_up_tip(store: StoreView, block_root: Root, tip: PulledUpTip) -> StoreView {
    let recorded = StoreView {
        unrealized_justifications: store.unrealized_justifications.insert(
            block_root,
            tip.justified_checkpoint,
        ),
        ..store
    };
    let unrealized = with_unrealized_checkpoints(
        recorded,
        tip.justified_checkpoint,
        tip.finalized_checkpoint,
    );
    if epoch_of(store.blocks[block_root].slot) < store.current_epoch() {
        with_checkpoints(unrealized, tip.justified_checkpoint, tip.finalized_checkpoint)
    } else {
        unrealized
    }
}

/// Takes in what pulling up justification and finalization gave for the
/// block under `block_root`. Where that step failed the store stays as it
/// is and the failure is handed on.
pub fn compute_pulled_up_tip(
    store: &mut Store,
    block_root: Root,
    pulled_up: &Option<PulledUpTip>,
) -> (done: Result<(), ForkChoiceError>)
    requires
        old(store).genesis_time <= old(store).time,
        old(store)@.blocks.contains_key(block_root),
    ensures
        match *pulled_up {
            Some(tip) => done == Ok::<(), ForkChoiceError>(()) && final(store)@
                == with_pulled_up_tip(old(store)@, block_root, tip),
            None => done == Err::<(), ForkChoiceError>(ForkChoiceError::TransitionError)
                && final(store)@ == old(store)@,
        },
        final(store).wf() == old(store).wf(),
        checkpoints_not_lowered(old(store)@, final(store)@),
{
    let tip = match pulled_up {
        Some(tip) => *tip,
        None => {
            return Err(ForkChoiceError::TransitionError);
        },
    };
    store.unrealized_justifications.insert(block_root, tip.justified_checkpoint);
    update_unrealized_checkpoints(store, tip.justified_checkpoint, tip.finalized_checkpoint);

    // If the block is from a prior epoch, apply the realized values.
    let block_slot = store.blocks.get(&block_root).unwrap().slot;
    let block_epoch = compute_epoch_at_slot(block_slot);
    let current_epoch = get_current_store_epoch(store);
    if block_epoch < current_epoch {
        update_checkpoints(store, tip.justified_checkpoint, tip.finalized_checkpoint);
    }
    Ok(())
}

/// Whether a block of slot `slot` that comes in now is timely: the store's
/// clock stands in that slot, within its first interval.
pub open spec fn timely(store: StoreView, slot: u64) -> bool {
    &&& store.current_slot() == slot
    &&& store.elapsed() % (SECONDS_PER_SLOT as int) < SECONDS_PER_SLOT / INTERVALS_PER_SLOT
}

/// The first of the store's own conditions that a block fails, in the order
/// in which they are held against it.
pub open spec fn admission(store: StoreView, block: BeaconBlockView) -> Result<(), ForkChoiceError> {
    if !store.block_states.contains_key(block.parent_root) {
        Err(ForkChoiceError::UnknownParent)
    } else if store.current_slot() < block.slot {
        Err(ForkChoiceError::BlockFromFuture)
    } else if block.slot <= start_slot_of(store.finalized_checkpoint.epoch) {
        Err(ForkChoiceError::BeforeFinalized)
    } else if checkpoint_block_of(
        store.blocks,
        block.parent_root,
        store.finalized_checkpoint.epoch,
    ) != store.finalized_checkpoint.root {
        Err(ForkChoiceError::NotDescendantOfFinalized)
    } else {
        Ok(())
    }
}

/// Whether the state transition stands behind the block: it accepted the
/// block, and the pull-up on its result went through.
pub open spec fn transition_accepted(report: BlockReport) -> bool {
    report.post_state is Some && report.pulled_up is Some
}

/// What becomes of a block that is offered to the store: the first failed
/// condition of the store, else the verdict of the data availability gate,
/// else `TransitionError` where the transition does not stand behind it.
pub open spec fn verdict(
    store: StoreView,
    block: BeaconBlockView,
    report: BlockReport,
) -> Result<(), ForkChoiceError> {
    if admission(store, block) is Err {
        admission(store, block)
    } else if availability(block.body.blob_kzg_commitments, report.blobs) is Err {
        availability(block.body.blob_kzg_commitments, report.blobs)
    } else if !transition_accepted(report) {
        Err(ForkChoiceError::TransitionError)
    } else {
        Ok(())
    }
}

/// The store once the block is taken in under `block_root` with the state
/// it leaves behind and its pulled-up checkpoints.
pub open spec fn with_block(
    store: StoreView,
    block_root: Root,
    block: BeaconBlockView,
    post_state: BeaconStateView,
    tip: PulledUpTip,
) -> StoreView {
    let is_timely = timely(store, block.slot);
    let registered = StoreView {
        blocks: store.blocks.insert(block_root, block),
        block_states: store.block_states.insert(block_root, post_state),
        block_timeliness: store.block_timeliness.insert(block_root, is_timely),
        proposer_boost_root: if is_timely && store.proposer_boost_root == block_root {
            block_root
        } else {
            store.proposer_boost_root
        },
        ..store
    };
    let realized = with_checkpoints(
        registered,
        post_state.current_justified_checkpoint,
        post_state.finalized_checkpoint,
    );
    with_pulled_up_tip(realized, block_root, tip)
}

/// Holds the store's own conditions against a block: its parent is known,
/// its slot has begun, it is later than the finalized slot, and its chain
/// passes through the finalized block.
pub fn admit_block(store: &Store, block: &BeaconBlock) -> (admitted: Result<(), ForkChoiceError>)
    requires
        store.genesis_time <= store.time,
    ensures
        admitted == admission(store@, block@),
{
    // Parent block must be known.
    if !store.block_states.contains_key(&block.parent_root) {
        return Err(ForkChoiceError::UnknownParent);
    }
    // Blocks cannot be in the future.
    if store.get_current_slot() < block.slot {
        return Err(ForkChoiceError::BlockFromFuture);
    }
    // The block must be later than the finalized epoch slot.
    if !slot_is_after_epoch_start(block.slot, store.finalized_checkpoint.epoch) {
        return Err(ForkChoiceError::BeforeFinalized);
    }
    // The block must descend from the finalized block.
    let finalized_checkpoint_block = get_checkpoint_block(
        store,
        block.parent_root,
        store.finalized_checkpoint.epoch,
    );
    if store.finalized_checkpoint.root != finalized_checkpoint_block {
        return Err(ForkChoiceError::NotDescendantOfFinalized);
    }
    Ok(())
}

proof fn lemma_map_values_insert<V, W>(m: Map<Root, V>, f: spec_fn(V) -> W, k: Root, v: V)
    ensures
        m.insert(k, v).map_values(f) == m.map_values(f).insert(k, f(v)),
{
    assert(m.insert(k, v).map_values(f) =~= m.map_values(f).insert(k, f(v)));
}

/// Run `on_block` on a block whose root is already at hand.
///
/// The block is held against the store's own conditions, then against the
/// data availability gate, then against the report of the state
/// transition; the first failure is returned and leaves the store as it
/// was. Otherwise the block and its state are registered under
/// `block_root`, its timeliness is recorded, and the checkpoints move up
/// to those of its state and of its pulled-up tip.
pub fn on_block_with_root(
    store: &mut Store,
    block_root: Root,
    signed_block: &SignedBeaconBlock,
    report: &BlockReport,
) -> (done: Result<(), ForkChoiceError>)
    requires
        old(store).wf(),
    ensures
        done == verdict(old(store)@, signed_block.message@, *report),
        final(store)@ == match done {
            Ok(_) => with_block(
                old(store)@,
                block_root,
                signed_block.message@,
                report.post_state.unwrap()@,
                report.pulled_up.unwrap(),
            ),
            Err(_) => old(store)@,
        },
        final(store).wf(),
        final(store)@.blocks.dom() == final(store)@.block_states.dom(),
        checkpoints_not_lowered(old(store)@, final(store)@),
        final(store)@.proposer_boost_root == old(store)@.proposer_boost_root,
        done is Ok ==> final(store)@.block_timeliness == old(store)@.block_timeliness.insert(
            block_root,
            timely(old(store)@, signed_block.message.slot),
        ),
{
    let block = &signed_block.message;
    match admit_block(store, block) {
        Err(e) => {
            return Err(e);
        },
        Ok(_) => {},
    }
    // Check if blob data is available.
    match check_availability(&block.body.blob_kzg_commitments, &report.blobs) {
        Err(e) => {
            return Err(e);
        },
        Ok(_) => {},
    }
    // Check the block is valid and take the post-state.
    let state = match &report.post_state {
        Some(state) => state,
        None => {
            return Err(ForkChoiceError::TransitionError);
        },
    };
    if report.pulled_up.is_none() {
        return Err(ForkChoiceError::TransitionError);
    }
    // Add new block and its state to the store.
    let block_copy = block.clone();
    let state_copy = state.clone();
    proof {
        lemma_map_values_insert(
            old(store).blocks.map(),
            |b: BeaconBlock| b@,
            block_root,
            block_copy,
        );
        lemma_map_values_insert(
            old(store).block_states.map(),
            |s: BeaconState| s@,
            block_root,
            state_copy,
        );
    }
    store.blocks.insert(block_root, block_copy);
    store.block_states.insert(block_root, state_copy);

    // Add block timeliness to the store.
    let time_into_slot = (store.time - store.genesis_time) % SECONDS_PER_SLOT;
    let is_before_attesting_interval = time_into_slot < SECONDS_PER_SLOT / INTERVALS_PER_SLOT;
    let is_timely = store.get_current_slot() == block.slot && is_before_attesting_interval;
    store.block_timeliness.insert(block_root, is_timely);

    // Add proposer score boost if the block is timely and not conflicting with an existing block.
    let is_first_block = store.proposer_boost_root == block_root;
    if is_timely && is_first_block {
        store.proposer_boost_root = block_root;
    }

    // Update checkpoints in store if necessary.
    update_checkpoints(store, state.current_justified_checkpoint, state.finalized_checkpoint);

    // Eagerly compute unrealized justification and finality.
    compute_pulled_up_tip(store, block_root, &report.pulled_up)
}

/// Run `on_block` upon receiving a new block: the block's root is computed
/// and the block is taken in under it, or refused, as `on_block_with_root`
/// says.
pub fn on_block(store: &mut Store, signed_block: &SignedBeaconBlock, report: &BlockReport) -> (done:
    Result<(), ForkChoiceError>)
    requires
        old(store).wf(),
    ensures
        done == verdict(old(store)@, signed_block.message@, *report),
        final(store)@ == match done {
            Ok(_) => with_block(
                old(store)@,
                block_root_of(signed_block.message@),
                signed_block.message@,
                report.post_state.unwrap()@,
                report.pulled_up.unwrap(),
            ),
            Err(_) => old(store)@,
        },
        final(store).wf(),
        final(store)@.blocks.dom() == final(store)@.block_states.dom(),
        checkpoints_not_lowered(old(store)@, final(store)@),
        final(store)@.proposer_boost_root == old(store)@.proposer_boost_root,
        done is Ok ==> final(store)@.block_timeliness == old(store)@.block_timeliness.insert(
            block_root_of(signed_block.message@),
            timely(old(store)@, signed_block.message.slot),
        ),
{
    let block_root = signed_block.message.tree_hash_root();
    on_block_with_root(store, block_root, signed_block, report)
}

} // verus!
