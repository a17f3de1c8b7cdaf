use vstd::prelude::*;
use vstd::set_lib::lemma_len_subset;
use crate::beacon_block::BeaconBlockView;
use crate::misc::{epoch_of, start_slot_of};
use crate::primitives::Root;

verus! {

/// Whether a walk towards the parents ends on `root`: it names no known
/// block, or a block that is not later than `slot`.
pub open spec fn stops(blocks: Map<Root, BeaconBlockView>, root: Root, slot: int) -> bool {
    !blocks.contains_key(root) || blocks[root].slot <= slot
}

/// Where the walk from `root` stands after at most `steps` steps from
/// block to parent, if it ends where `stops` says.
pub open spec fn walk(
    blocks: Map<Root, BeaconBlockView>,
    root: Root,
    slot: int,
    steps: nat,
) -> Root
    decreases steps,
{
    if steps == 0 || stops(blocks, root, slot) {
        root
    } else {
        walk(blocks, blocks[root].parent_root, slot, (steps - 1) as nat)
    }
}

/// The ancestor of `root` at `slot`: the first block on the way from `root`
/// towards its parents that is not later than `slot`, or the first root on
/// that way that names no known block.
///
/// The walk is given as many steps as there are known blocks. That is
/// enough to end it wherever the parent links form no cycle; in a cycle
/// there is no ancestor to be had, and the walk stands where its steps
/// ran out.
pub open spec fn ancestor_of(blocks: Map<Root, BeaconBlockView>, root: Root, slot: int) -> Root {
    walk(blocks, root, slot, blocks.dom().len())
}

/// Whether the walk from `root` ends within its steps.
pub open spec fn settles(blocks: Map<Root, BeaconBlockView>, root: Root, slot: int) -> bool {
    stops(blocks, ancestor_of(blocks, root, slot), slot)
}

/// The block that opens `epoch` in the chain of `root`.
pub open spec fn checkpoint_block_of(
    blocks: Map<Root, BeaconBlockView>,
    root: Root,
    epoch: u64,
) -> Root {
    ancestor_of(blocks, root, start_slot_of(epoch))
}

/// A walk that has ended stands where it is, however many steps it is given.
pub proof fn lemma_walk_stays(
    blocks: Map<Root, BeaconBlockView>,
    root: Root,
    slot: int,
    steps: nat,
    more: nat,
)
    requires
        stops(blocks, walk(blocks, root, slot, steps), slot),
        steps <= more,
    ensures
        walk(blocks, root, slot, more) == walk(blocks, root, slot, steps),
    decreases steps,
{
    if steps > 0 && !stops(blocks, root, slot) {
        lemma_walk_stays(
            blocks,
            blocks[root].parent_root,
            slot,
            (steps - 1) as nat,
            (more - 1) as nat,
        );
    }
}

/// Where the walk ends within its steps, the ancestor of a later block is
/// the ancestor of its parent, and every other root is its own ancestor.
pub proof fn lemma_ancestor_unfolds(blocks: Map<Root, BeaconBlockView>, root: Root, slot: int)
    requires
        blocks.dom().finite(),
        settles(blocks, root, slot),
    ensures
        ancestor_of(blocks, root, slot) == if blocks.contains_key(root) && blocks[root].slot
            > slot {
            ancestor_of(blocks, blocks[root].parent_root, slot)
        } else {
            root
        },
{
    let steps = blocks.dom().len();
    if !stops(blocks, root, slot) {
        assert(blocks.dom().contains(root));
        assert(steps > 0) by {
            if steps == 0 {
                assert(blocks.dom() =~= Set::<Root>::empty());
            }
        }
        lemma_walk_stays(blocks, blocks[root].parent_root, slot, (steps - 1) as nat, steps);
    }
}

/// The checkpoint block of a block that opens its own epoch is the block
/// itself.
pub proof fn lemma_checkpoint_block_of_epoch_start(blocks: Map<Root, BeaconBlockView>, root: Root)
    requires
        blocks.contains_key(root),
        blocks[root].slot == start_slot_of(epoch_of(blocks[root].slot)),
    ensures
        checkpoint_block_of(blocks, root, epoch_of(blocks[root].slot)) == root,
{
}

/// The walk to an earlier slot passes where the walk to a later slot ends.
proof fn lemma_walk_of_walk(
    blocks: Map<Root, BeaconBlockView>,
    root: Root,
    later: int,
    earlier: int,
    steps: nat,
)
    requires
        earlier <= later,
        stops(blocks, walk(blocks, root, earlier, steps), earlier),
    ensures
        walk(blocks, walk(blocks, root, later, steps), earlier, steps) == walk(
            blocks,
            root,
            earlier,
            steps,
        ),
    decreases steps,
{
    if steps > 0 && !stops(blocks, root, later) {
        let parent = blocks[root].parent_root;
        let fewer = (steps - 1) as nat;
        lemma_walk_of_walk(blocks, parent, later, earlier, fewer);
        lemma_walk_stays(blocks, walk(blocks, parent, later, fewer), earlier, fewer, steps);
    }
}

/// The ancestor at an earlier slot of the ancestor at a later slot is the
/// ancestor at the earlier slot, wherever the walk to the earlier slot
/// ends within its steps.
pub proof fn lemma_ancestor_of_ancestor(
    blocks: Map<Root, BeaconBlockView>,
    root: Root,
    later: int,
    earlier: int,
)
    requires
        earlier <= later,
        settles(blocks, root, earlier),
    ensures
        ancestor_of(blocks, ancestor_of(blocks, root, later), earlier) == ancestor_of(
            blocks,
            root,
            earlier,
        ),
{
    lemma_walk_of_walk(blocks, root, later, earlier, blocks.dom().len());
}

/// Whether linking `block` under `block_root` leaves every parent link of
/// the known blocks as it was: the root names this very slot and parent
/// already, or it is new and no known block names it as its parent.
pub open spec fn links_unmoved(
    blocks: Map<Root, BeaconBlockView>,
    block_root: Root,
    block: BeaconBlockView,
) -> bool {
    if blocks.contains_key(block_root) {
        blocks[block_root].slot == block.slot && blocks[block_root].parent_root
            == block.parent_root
    } else {
        forall|r: Root| blocks.contains_key(r) ==> (#[trigger] blocks[r]).parent_root != block_root
    }
}

/// Linking a block that leaves the parent links as they were leaves the
/// walk from every known block as it was.
pub proof fn lemma_walk_unmoved(
    blocks: Map<Root, BeaconBlockView>,
    block_root: Root,
    block: BeaconBlockView,
    root: Root,
    slot: int,
    steps: nat,
)
    requires
        links_unmoved(blocks, block_root, block),
        blocks.contains_key(root),
    ensures
        walk(blocks.insert(block_root, block), root, slot, steps) == walk(blocks, root, slot, steps),
    decreases steps,
{
    let linked = blocks.insert(block_root, block);
    assert(linked.contains_key(root));
    assert(linked[root].slot == blocks[root].slot);
    assert(linked[root].parent_root == blocks[root].parent_root);
    if steps > 0 && !stops(blocks, root, slot) {
        let parent = blocks[root].parent_root;
        if blocks.contains_key(parent) {
            lemma_walk_unmoved(blocks, block_root, block, parent, slot, (steps - 1) as nat);
        } else {
            assert(parent != block_root);
            assert(!linked.contains_key(parent));
            assert(walk(linked, parent, slot, (steps - 1) as nat) == parent);
            assert(walk(blocks, parent, slot, (steps - 1) as nat) == parent);
        }
    }
}

/// Whether along every parent link between two known blocks the slot goes
/// down.
pub open spec fn slot_order(blocks: Map<Root, BeaconBlockView>) -> bool {
    forall|r: Root|
        #![trigger blocks[r]]
        blocks.contains_key(r) && blocks.contains_key(blocks[r].parent_root)
            ==> blocks[blocks[r].parent_root].slot < blocks[r].slot
}

/// The known blocks of a slot before `bound`.
pub open spec fn earlier_blocks(blocks: Map<Root, BeaconBlockView>, bound: int) -> Set<Root> {
    blocks.dom().filter(|r: Root| blocks[r].slot < bound)
}

/// Where slots go down along parent links, a walk that has more steps than
/// there are blocks before its first one ends within them.
proof fn lemma_walk_ends(blocks: Map<Root, BeaconBlockView>, root: Root, slot: int, steps: nat)
    requires
        blocks.dom().finite(),
        slot_order(blocks),
        blocks.contains_key(root) ==> earlier_blocks(blocks, blocks[root].slot as int).len()
            < steps,
    ensures
        stops(blocks, walk(blocks, root, slot, steps), slot),
    decreases steps,
{
    if !stops(blocks, root, slot) {
        let parent = blocks[root].parent_root;
        if blocks.contains_key(parent) {
            let before_parent = earlier_blocks(blocks, blocks[parent].slot as int);
            let before_root = earlier_blocks(blocks, blocks[root].slot as int);
            lemma_len_subset(before_root, blocks.dom());
            assert(before_parent.subset_of(before_root));
            assert(before_root.contains(parent));
            before_parent.lemma_subset_not_in_lt(before_root, parent);
        }
        lemma_walk_ends(blocks, parent, slot, (steps - 1) as nat);
    }
}

/// Where slots go down along parent links, every walk ends within its
/// steps.
pub proof fn lemma_slot_order_settles(blocks: Map<Root, BeaconBlockView>, root: Root, slot: int)
    requires
        blocks.dom().finite(),
        slot_order(blocks),
    ensures
        settles(blocks, root, slot),
{
    if blocks.contains_key(root) {
        let before_root = earlier_blocks(blocks, blocks[root].slot as int);
        assert(before_root.subset_of(blocks.dom()));
        before_root.lemma_subset_not_in_lt(blocks.dom(), root);
    }
    lemma_walk_ends(blocks, root, slot, blocks.dom().len());
}

} // verus!
