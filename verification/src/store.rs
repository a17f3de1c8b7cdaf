use vstd::prelude::*;
use crate::beacon_block::{BeaconBlock, BeaconBlockView};
use crate::beacon_state::{BeaconState, BeaconStateView};
use crate::checkpoint::Checkpoint;
use crate::constants::{SECONDS_PER_SLOT, SLOTS_PER_EPOCH};
use crate::misc::epoch_of;
use crate::primitives::Root;
use crate::root_map::RootMap;

verus! {

/// The state of the fork choice: the clock, the checkpoints, the proposer
/// boost, and what is known of each block, by block root.
pub struct Store {
    /// Unix time in seconds.
    pub time: u64,
    pub genesis_time: u64,
    pub justified_checkpoint: Checkpoint,
    pub finalized_checkpoint: Checkpoint,
    pub unrealized_justified_checkpoint: Checkpoint,
    pub unrealized_finalized_checkpoint: Checkpoint,
    /// The block that holds the proposer boost, or the zero root.
    pub proposer_boost_root: Root,
    pub blocks: RootMap<BeaconBlock>,
    /// The state that each block leaves behind.
    pub block_states: RootMap<BeaconState>,
    /// Whether each block came in early enough in its own slot.
    pub block_timeliness: RootMap<bool>,
    /// The justified checkpoint that each block would have once its epoch
    /// is closed.
    pub unrealized_justifications: RootMap<Checkpoint>,
}

/// A store as mathematical values.
pub struct StoreView {
    pub time: u64,
    pub genesis_time: u64,
    pub justified_checkpoint: Checkpoint,
    pub finalized_checkpoint: Checkpoint,
    pub unrealized_justified_checkpoint: Checkpoint,
    pub unrealized_finalized_checkpoint: Checkpoint,
    pub proposer_boost_root: Root,
    pub blocks: Map<Root, BeaconBlockView>,
    pub block_states: Map<Root, BeaconStateView>,
    pub block_timeliness: Map<Root, bool>,
    pub unrealized_justifications: Map<Root, Checkpoint>,
}

impl View for Store {
    type V = StoreView;

    open spec fn view(&self) -> StoreView {
        StoreView {
            time: self.time,
            genesis_time: self.genesis_time,
            justified_checkpoint: self.justified_checkpoint,
            finalized_checkpoint: self.finalized_checkpoint,
            unrealized_justified_checkpoint: self.unrealized_justified_checkpoint,
            unrealized_finalized_checkpoint: self.unrealized_finalized_checkpoint,
            proposer_boost_root: self.proposer_boost_root,
            blocks: self.blocks.map().map_values(|b: BeaconBlock| b@),
            block_states: self.block_states.map().map_values(|s: BeaconState| s@),
            block_timeliness: self.block_timeliness.map(),
            unrealized_justifications: self.unrealized_justifications.map(),
        }
    }
}

impl StoreView {
    /// What every store must satisfy: the clock is not before genesis, and
    /// the same roots, finitely many, have a block and a state.
    pub open spec fn wf(self) -> bool {
        &&& self.genesis_time <= self.time
        &&& self.blocks.dom().finite()
        &&& self.blocks.dom() == self.block_states.dom()
    }

    /// Seconds since genesis.
    pub open spec fn elapsed(self) -> int {
        self.time - self.genesis_time
    }

    pub open spec fn current_slot(self) -> int {
        self.elapsed() / (SECONDS_PER_SLOT as int)
    }

    pub open spec fn current_epoch(self) -> int {
        self.current_slot() / (SLOTS_PER_EPOCH as int)
    }
}

impl Store {
    pub open spec fn wf(&self) -> bool {
        self@.wf()
    }

    /// A store that knows one block, the anchor, which is both justified
    /// and finalized at the epoch of its slot; nothing holds the boost.
    pub fn new(
        genesis_time: u64,
        time: u64,
        anchor_root: Root,
        anchor_block: BeaconBlock,
        anchor_state: BeaconState,
    ) -> (store: Store)
        requires
            genesis_time <= time,
        ensures
            store.wf(),
            store@.time == time,
            store@.genesis_time == genesis_time,
            store@.justified_checkpoint == (Checkpoint {
                epoch: epoch_of(anchor_block.slot),
                root: anchor_root,
            }),
            store@.finalized_checkpoint == store@.justified_checkpoint,
            store@.unrealized_justified_checkpoint == store@.justified_checkpoint,
            store@.unrealized_finalized_checkpoint == store@.justified_checkpoint,
            store@.proposer_boost_root@ == Seq::new(32, |i: int| 0u8),
            store@.blocks == Map::<Root, BeaconBlockView>::empty().insert(
                anchor_root,
                anchor_block@,
            ),
            store@.block_states == Map::<Root, BeaconStateView>::empty().insert(
                anchor_root,
                anchor_state@,
            ),
            store@.block_timeliness == Map::<Root, bool>::empty(),
            store@.unrealized_justifications == Map::<Root, Checkpoint>::empty(),
    {
        let anchor = Checkpoint { epoch: anchor_block.slot / SLOTS_PER_EPOCH, root: anchor_root };
        let mut blocks: RootMap<BeaconBlock> = RootMap::new();
        let mut block_states: RootMap<BeaconState> = RootMap::new();
        blocks.insert(anchor_root, anchor_block);
        block_states.insert(anchor_root, anchor_state);
        let store = Store {
            time,
            genesis_time,
            justified_checkpoint: anchor,
            finalized_checkpoint: anchor,
            unrealized_justified_checkpoint: anchor,
            unrealized_finalized_checkpoint: anchor,
            proposer_boost_root: Root::zero(),
            blocks,
            block_states,
            block_timeliness: RootMap::new(),
            unrealized_justifications: RootMap::new(),
        };
        proof {
            assert(store@.blocks =~= Map::<Root, BeaconBlockView>::empty().insert(
                anchor_root,
                anchor_block@,
            ));
            assert(store@.block_states =~= Map::<Root, BeaconStateView>::empty().insert(
                anchor_root,
                anchor_state@,
            ));
            assert(store@.blocks.dom() =~= store@.block_states.dom());
        }
        store
    }

    pub fn get_current_slot(&self) -> (slot: u64)
        requires
            self.genesis_time <= self.time,
        ensures
            slot == self@.current_slot(),
    {
        (self.time - self.genesis_time) / SECONDS_PER_SLOT
    }
}

} // verus!
