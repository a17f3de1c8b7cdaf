use vstd::prelude::*;
use vstd::bytes::{spec_u64_to_le_bytes, u64_to_le_bytes};
use crate::beacon_block::{BeaconBlock, BeaconBlockView};
use crate::primitives::Root;

verus! {

/// The Merkle root that `tree_hash::merkle_root` computes over `bytes`, cut
/// into 32-byte leaves, in a tree of at least `minimum_leaf_count` leaves.
pub uninterp spec fn merkle_root_of(bytes: Seq<u8>, minimum_leaf_count: usize) -> Seq<u8>;

/// Calls `tree_hash::merkle_root`. The result is a function of the bytes
/// and of the leaf count alone; nothing more is claimed of it. Inputs are
/// kept to at most eight leaves, far below the depth at which the hasher
/// gives up.
#[verifier::external_body]
fn merkle_root(bytes: &Vec<u8>, minimum_leaf_count: usize) -> (root: Root)
    requires
        bytes@.len() <= 256,
        minimum_leaf_count <= 8,
    ensures
        root@ == merkle_root_of(bytes@, minimum_leaf_count),
{
    Root { bytes: tree_hash::merkle_root(bytes.as_slice(), minimum_leaf_count).0 }
}

/// The 32-byte leaf of an unsigned 64-bit field: its eight bytes, lowest
/// first, then zeros.
pub open spec fn uint64_leaf(value: u64) -> Seq<u8> {
    spec_u64_to_le_bytes(value) + Seq::new(24, |i: int| 0u8)
}

/// The five leaves of a block header, in the order of its fields.
pub open spec fn header_leaves(
    slot: u64,
    proposer_index: u64,
    parent_root: Root,
    state_root: Root,
    body_root: Root,
) -> Seq<u8> {
    uint64_leaf(slot) + uint64_leaf(proposer_index) + parent_root@ + state_root@ + body_root@
}

/// The root of a block header with the given fields.
pub open spec fn header_root_of(
    slot: u64,
    proposer_index: u64,
    parent_root: Root,
    state_root: Root,
    body_root: Root,
) -> Root {
    choose|root: Root|
        root@ == merkle_root_of(
            header_leaves(slot, proposer_index, parent_root, state_root, body_root),
            0,
        )
}

/// The root of a block, which is the root of its header: the body enters
/// through its own root.
pub open spec fn block_root_of(block: BeaconBlockView) -> Root {
    header_root_of(
        block.slot,
        block.proposer_index,
        block.parent_root,
        block.state_root,
        block.body.root,
    )
}

fn push_uint64_leaf(leaves: &mut Vec<u8>, value: u64)
    ensures
        final(leaves)@ == old(leaves)@ + uint64_leaf(value),
        uint64_leaf(value).len() == 32,
{
    let low = u64_to_le_bytes(value);
    let mut i: usize = 0;
    while i < 32
        invariant
            i <= 32,
            low@ == spec_u64_to_le_bytes(value),
            low@.len() == 8,
            leaves@ == old(leaves)@ + uint64_leaf(value).subrange(0, i as int),
        decreases 32 - i,
    {
        let byte: u8 = if i < 8 {
            low[i]
        } else {
            0
        };
        leaves.push(byte);
        i += 1;
        assert(leaves@ =~= old(leaves)@ + uint64_leaf(value).subrange(0, i as int));
    }
    assert(uint64_leaf(value).subrange(0, 32) =~= uint64_leaf(value));
}

fn push_root_leaf(leaves: &mut Vec<u8>, root: &Root)
    ensures
        final(leaves)@ == old(leaves)@ + root@,
{
    let mut i: usize = 0;
    while i < 32
        invariant
            i <= 32,
            leaves@ == old(leaves)@ + root@.subrange(0, i as int),
        decreases 32 - i,
    {
        leaves.push(root.bytes[i]);
        i += 1;
        assert(leaves@ =~= old(leaves)@ + root@.subrange(0, i as int));
    }
    assert(root@.subrange(0, 32) =~= root@);
}

/// Computes the root of a block header with the given fields.
pub fn header_root(
    slot: u64,
    proposer_index: u64,
    parent_root: &Root,
    state_root: &Root,
    body_root: &Root,
) -> (root: Root)
    ensures
        root == header_root_of(slot, proposer_index, *parent_root, *state_root, *body_root),
{
    let mut leaves: Vec<u8> = Vec::new();
    push_uint64_leaf(&mut leaves, slot);
    push_uint64_leaf(&mut leaves, proposer_index);
    push_root_leaf(&mut leaves, parent_root);
    push_root_leaf(&mut leaves, state_root);
    push_root_leaf(&mut leaves, body_root);
    proof {
        assert(leaves@ =~= header_leaves(
            slot,
            proposer_index,
            *parent_root,
            *state_root,
            *body_root,
        ));
    }
    let root = merkle_root(&leaves, 0);
    proof {
        let named = header_root_of(slot, proposer_index, *parent_root, *state_root, *body_root);
        Root::lemma_view_injective(root, named);
    }
    root
}

impl BeaconBlock {
    /// The block's root.
    pub fn tree_hash_root(&self) -> (root: Root)
        ensures
            root == block_root_of(self@),
    {
        header_root(
            self.slot,
            self.proposer_index,
            &self.parent_root,
            &self.state_root,
            &self.body.root,
        )
    }
}

} // verus!
