use vstd::prelude::*;
use crate::ancestry::{
    checkpoint_block_of, lemma_walk_stays, lemma_walk_unmoved, links_unmoved, stops, walk,
};
use crate::beacon_block::BeaconBlockView;
use crate::checkpoint::Checkpoint;
use crate::fork_choice::{verdict, with_block, BlockReport};
use crate::misc::start_slot_of;
use crate::primitives::Root;
use crate::store::StoreView;

verus! {

/// Whether every block of the store that is later than the finalized slot
/// has the finalized block as its checkpoint block of the finalized epoch.
pub open spec fn descends_from_finalized(store: StoreView) -> bool {
    forall|r: Root|
        store.blocks.contains_key(r) && (#[trigger] store.blocks[r]).slot > start_slot_of(
            store.finalized_checkpoint.epoch,
        ) ==> checkpoint_block_of(store.blocks, r, store.finalized_checkpoint.epoch)
            == store.finalized_checkpoint.root
}

/// Whether the finalized block, where the store knows it, is not later
/// than the first slot of the finalized epoch.
pub open spec fn finalized_block_in_place(store: StoreView) -> bool {
    stops(
        store.blocks,
        store.finalized_checkpoint.root,
        start_slot_of(store.finalized_checkpoint.epoch),
    )
}

/// Taking in a block keeps every later block a descendant of the finalized
/// block, as long as the finalized block is in place, the finalized
/// checkpoint stays where it is, and the new link moves none of the old
/// ones.
///
/// Where the call moves the finalized checkpoint up, blocks of a branch
/// that does not pass through the new finalized block stay in the store,
/// and the statement fails for them.
pub proof fn lemma_on_block_keeps_finalized_descent(
    store: StoreView,
    block_root: Root,
    block: BeaconBlockView,
    report: BlockReport,
)
    requires
        store.wf(),
        descends_from_finalized(store),
        finalized_block_in_place(store),
        verdict(store, block, report) is Ok,
        with_block(
            store,
            block_root,
            block,
            report.post_state.unwrap()@,
            report.pulled_up.unwrap(),
        ).finalized_checkpoint == store.finalized_checkpoint,
        links_unmoved(store.blocks, block_root, block),
    ensures
        descends_from_finalized(
            with_block(
                store,
                block_root,
                block,
                report.post_state.unwrap()@,
                report.pulled_up.unwrap(),
            ),
        ),
{
    let after = with_block(
        store,
        block_root,
        block,
        report.post_state.unwrap()@,
        report.pulled_up.unwrap(),
    );
    let known = store.blocks;
    let linked = known.insert(block_root, block);
    let finalized = store.finalized_checkpoint;
    let slot = start_slot_of(finalized.epoch);
    let steps = known.dom().len();
    let more = linked.dom().len();
    assert(after.blocks == linked);
    assert(known.contains_key(block.parent_root));
    assert(steps <= more && (!known.contains_key(block_root) ==> more == steps + 1)) by {
        assert(linked.dom() =~= known.dom().insert(block_root));
    }
    assert forall|r: Root|
        after.blocks.contains_key(r) && (#[trigger] after.blocks[r]).slot > slot implies walk(
        after.blocks,
        r,
        slot,
        more,
    ) == finalized.root by {
        if known.contains_key(r) {
            assert(linked[r].slot == known[r].slot);
            // The walk of the known block ended on the finalized block before.
            assert(walk(known, r, slot, steps) == finalized.root);
            lemma_walk_stays(known, r, slot, steps, more);
            lemma_walk_unmoved(known, block_root, block, r, slot, more);
        } else {
            // The new block is later than the finalized slot: its walk goes
            // on from its parent, which the store knew.
            assert(r == block_root);
            let parent = block.parent_root;
            assert(walk(known, parent, slot, steps) == finalized.root);
            lemma_walk_unmoved(known, block_root, block, parent, slot, steps);
        }
    }
}

/// Whether every block of the store has its parent in the store, but for
/// blocks under `anchor_parent`, the parent of the block that the store
/// started from.
pub open spec fn parents_known(store: StoreView, anchor_parent: Root) -> bool {
    forall|r: Root|
        store.blocks.contains_key(r) ==> store.blocks.contains_key(
            (#[trigger] store.blocks[r]).parent_root,
        ) || store.blocks[r].parent_root == anchor_parent
}

/// Taking in a block keeps the parent of every block in the store.
pub proof fn lemma_on_block_keeps_parents_known(
    store: StoreView,
    block_root: Root,
    block: BeaconBlockView,
    report: BlockReport,
    anchor_parent: Root,
)
    requires
        store.wf(),
        parents_known(store, anchor_parent),
        verdict(store, block, report) is Ok,
    ensures
        parents_known(
            with_block(
                store,
                block_root,
                block,
                report.post_state.unwrap()@,
                report.pulled_up.unwrap(),
            ),
            anchor_parent,
        ),
{
    let after = with_block(
        store,
        block_root,
        block,
        report.post_state.unwrap()@,
        report.pulled_up.unwrap(),
    );
    assert(after.blocks == store.blocks.insert(block_root, block));
    assert(store.blocks.contains_key(block.parent_root));
    assert forall|r: Root| after.blocks.contains_key(r) implies after.blocks.contains_key(
        (#[trigger] after.blocks[r]).parent_root,
    ) || after.blocks[r].parent_root == anchor_parent by {
        if r != block_root {
            assert(store.blocks.contains_key(r));
            assert(after.blocks[r] == store.blocks[r]);
        }
    }
}

/// Whether the proposer boost is held by nobody or by a block of the store.
pub open spec fn boost_known(store: StoreView) -> bool {
    store.proposer_boost_root@ == Seq::new(32, |i: int| 0u8) || store.blocks.contains_key(
        store.proposer_boost_root,
    )
}

/// Taking in a block leaves the proposer boost with nobody or with a block
/// of the store.
pub proof fn lemma_on_block_keeps_boost_known(
    store: StoreView,
    block_root: Root,
    block: BeaconBlockView,
    report: BlockReport,
)
    requires
        boost_known(store),
        verdict(store, block, report) is Ok,
    ensures
        boost_known(
            with_block(
                store,
                block_root,
                block,
                report.post_state.unwrap()@,
                report.pulled_up.unwrap(),
            ),
        ),
{
}

/// Whether the justified checkpoint is of no earlier epoch than the
/// finalized one.
pub open spec fn justified_not_behind(justified: Checkpoint, finalized: Checkpoint) -> bool {
    justified.epoch >= finalized.epoch
}

/// Taking in a block keeps the justified checkpoint from falling behind
/// the finalized one, where the same holds of the checkpoints of the
/// block's state and of its pulled-up tip.
pub proof fn lemma_on_block_keeps_justified_ahead(
    store: StoreView,
    block_root: Root,
    block: BeaconBlockView,
    report: BlockReport,
)
    requires
        justified_not_behind(store.justified_checkpoint, store.finalized_checkpoint),
        verdict(store, block, report) is Ok,
        justified_not_behind(
            report.post_state.unwrap().current_justified_checkpoint,
            report.post_state.unwrap().finalized_checkpoint,
        ),
        justified_not_behind(
            report.pulled_up.unwrap().justified_checkpoint,
            report.pulled_up.unwrap().finalized_checkpoint,
        ),
    ensures
        ({
            let after = with_block(
                store,
                block_root,
                block,
                report.post_state.unwrap()@,
                report.pulled_up.unwrap(),
            );
            justified_not_behind(after.justified_checkpoint, after.finalized_checkpoint)
        }),
{
}

} // verus!
