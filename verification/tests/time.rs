use fork_choice::beacon_block::{BeaconBlock, BeaconBlockBody};
use fork_choice::beacon_state::{BeaconState, Fork};
use fork_choice::checkpoint::Checkpoint;
use fork_choice::constants::{INTERVALS_PER_SLOT, SECONDS_PER_SLOT, SLOTS_PER_EPOCH};
use fork_choice::fork_choice::get_current_store_epoch;
use fork_choice::misc::{compute_epoch_at_slot, compute_start_slot_at_epoch, slot_is_after_epoch_start};
use fork_choice::primitives::{bytes_equal, PubKey, Root};
use fork_choice::root_map::RootMap;
use fork_choice::store::Store;

#[test]
fn constants_are_those_of_the_network() {
    assert_eq!(SECONDS_PER_SLOT, 12);
    assert_eq!(INTERVALS_PER_SLOT, 3);
    assert_eq!(SLOTS_PER_EPOCH, 32);
}

#[test]
fn epoch_of_a_slot_is_its_quotient_by_the_epoch_length() {
    assert_eq!(compute_epoch_at_slot(0), 0);
    assert_eq!(compute_epoch_at_slot(31), 0);
    assert_eq!(compute_epoch_at_slot(32), 1);
    assert_eq!(compute_epoch_at_slot(95), 2);
    assert_eq!(compute_epoch_at_slot(u64::MAX), 576_460_752_303_423_487);
}

#[test]
fn start_slot_of_an_epoch_is_its_product_with_the_epoch_length() {
    assert_eq!(compute_start_slot_at_epoch(0), 0);
    assert_eq!(compute_start_slot_at_epoch(1), 32);
    assert_eq!(compute_start_slot_at_epoch(3), 96);
    assert_eq!(compute_start_slot_at_epoch(u64::MAX / 32), u64::MAX - 31);
}

#[test]
fn slot_is_held_against_the_start_of_an_epoch_without_overflow() {
    assert!(!slot_is_after_epoch_start(0, 0));
    assert!(slot_is_after_epoch_start(1, 0));
    assert!(!slot_is_after_epoch_start(32, 1));
    assert!(slot_is_after_epoch_start(33, 1));
    assert!(slot_is_after_epoch_start(u64::MAX, u64::MAX / 32));
    assert!(!slot_is_after_epoch_start(u64::MAX, u64::MAX / 32 + 1));
    assert!(!slot_is_after_epoch_start(u64::MAX, u64::MAX));
}

fn store_at(genesis_time: u64, time: u64) -> Store {
    let root = Root { bytes: [1; 32] };
    let at = Checkpoint { epoch: 0, root };
    let block = BeaconBlock {
        slot: 0,
        proposer_index: 0,
        parent_root: Root::zero(),
        state_root: Root::zero(),
        body: BeaconBlockBody {
            root: Root::zero(),
            blob_kzg_commitments: vec![],
            blob_versioned_hashes: vec![],
            attestations: 0,
            sync_committee_bits: 0,
            proposer_slashings: 0,
            attester_slashings: 0,
        },
    };
    let state = BeaconState {
        slot: 0,
        fork: Fork { previous_version: [0; 4], current_version: [0; 4], epoch: 0 },
        previous_justified_checkpoint: at,
        current_justified_checkpoint: at,
        finalized_checkpoint: at,
        validators: vec![],
        balances: vec![],
    };
    Store::new(genesis_time, time, root, block, state)
}

#[test]
fn current_slot_counts_whole_slots_since_genesis() {
    assert_eq!(store_at(0, 0).get_current_slot(), 0);
    assert_eq!(store_at(0, 11).get_current_slot(), 0);
    assert_eq!(store_at(0, 12).get_current_slot(), 1);
    assert_eq!(store_at(100, 100).get_current_slot(), 0);
    assert_eq!(store_at(100, 100 + 12 * 7 + 5).get_current_slot(), 7);
    assert_eq!(store_at(0, u64::MAX).get_current_slot(), u64::MAX / 12);
}

#[test]
fn current_epoch_counts_whole_epochs_since_genesis() {
    assert_eq!(get_current_store_epoch(&store_at(0, 12 * 31 + 11)), 0);
    assert_eq!(get_current_store_epoch(&store_at(0, 12 * 32)), 1);
    assert_eq!(get_current_store_epoch(&store_at(50, 50 + 12 * 32 * 9 + 3)), 9);
}

#[test]
fn store_of_an_anchor_beyond_epoch_zero_starts_at_its_epoch() {
    let root = Root { bytes: [1; 32] };
    let at = Checkpoint { epoch: 0, root };
    let mut store = store_at(0, 0);
    assert_eq!(store.justified_checkpoint, at);
    let block = BeaconBlock { slot: 70, ..store.blocks.get(&root).unwrap().clone() };
    let state = store.block_states.get(&root).unwrap().clone();
    store = Store::new(0, 1000, root, block, state);
    assert_eq!(store.justified_checkpoint, Checkpoint { epoch: 2, root });
    assert_eq!(store.finalized_checkpoint, Checkpoint { epoch: 2, root });
}

#[test]
fn roots_and_keys_compare_by_their_bytes() {
    let mut bytes = [7u8; 32];
    let a = Root { bytes };
    bytes[31] = 8;
    let b = Root { bytes };
    assert_eq!(a, Root { bytes: [7; 32] });
    assert_ne!(a, b);
    assert_eq!(Root::zero(), Root { bytes: [0; 32] });
    assert!(bytes_equal(&[1u8, 2, 3], &[1, 2, 3]));
    assert!(!bytes_equal(&[1u8, 2, 3], &[1, 2, 4]));
    assert!(bytes_equal::<0>(&[], &[]));
    assert_eq!(PubKey { bytes: [1; 48] }, PubKey { bytes: [1; 48] });
    assert_ne!(PubKey { bytes: [1; 48] }, PubKey { bytes: [2; 48] });
    assert_eq!(Checkpoint { epoch: 1, root: a }, Checkpoint { epoch: 1, root: a });
    assert_ne!(Checkpoint { epoch: 1, root: a }, Checkpoint { epoch: 2, root: a });
    assert_ne!(Checkpoint { epoch: 1, root: a }, Checkpoint { epoch: 1, root: b });
}

#[test]
fn root_map_binds_each_root_once() {
    let mut map: RootMap<u32> = RootMap::new();
    assert_eq!(map.len(), 0);
    assert!(!map.contains_key(&Root::zero()));
    assert_eq!(map.get(&Root::zero()), None);

    map.insert(Root { bytes: [1; 32] }, 10);
    map.insert(Root { bytes: [2; 32] }, 20);
    assert_eq!(map.len(), 2);
    assert_eq!(map.get(&Root { bytes: [1; 32] }), Some(&10));
    assert_eq!(map.get(&Root { bytes: [2; 32] }), Some(&20));
    assert_eq!(map.get(&Root { bytes: [3; 32] }), None);

    map.insert(Root { bytes: [1; 32] }, 11);
    assert_eq!(map.len(), 2);
    assert_eq!(map.get(&Root { bytes: [1; 32] }), Some(&11));
    assert_eq!(map.get(&Root { bytes: [2; 32] }), Some(&20));
    assert!(map.contains_key(&Root { bytes: [2; 32] }));
}
