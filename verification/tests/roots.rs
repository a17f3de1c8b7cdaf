use fork_choice::beacon_block::{BeaconBlock, BeaconBlockBody, SignedBeaconBlock};
use fork_choice::handlers::header::{child_slot, get_header_from_slot, get_headers, header_query, HeaderData, HeaderQuery};
use fork_choice::merkle::header_root;
use fork_choice::primitives::{BlsSignature, Root};
use fork_choice::types::errors::ApiError;
use fork_choice::types::id::ID;
use tree_hash::{MerkleHasher, TreeHash};

fn root(tag: u8) -> Root {
    Root { bytes: [tag; 32] }
}

fn expected_root(slot: u64, proposer_index: u64, parent: Root, state: Root, body: Root) -> Root {
    let mut hasher = MerkleHasher::with_leaves(5);
    hasher.write(slot.tree_hash_root().as_slice()).unwrap();
    hasher.write(proposer_index.tree_hash_root().as_slice()).unwrap();
    hasher.write(alloy_primitives::B256::from(parent.bytes).tree_hash_root().as_slice()).unwrap();
    hasher.write(alloy_primitives::B256::from(state.bytes).tree_hash_root().as_slice()).unwrap();
    hasher.write(alloy_primitives::B256::from(body.bytes).tree_hash_root().as_slice()).unwrap();
    Root { bytes: hasher.finish().unwrap().0 }
}

#[test]
fn header_root_is_the_merkle_root_of_the_five_fields() {
    for (slot, proposer) in [(0u64, 0u64), (1, 7), (1 << 40, 3), (u64::MAX, u64::MAX)] {
        let got = header_root(slot, proposer, &root(1), &root(2), &root(3));
        assert_eq!(got, expected_root(slot, proposer, root(1), root(2), root(3)));
        assert_ne!(got, root(1));
        assert_ne!(got, root(3));
    }
}

#[test]
fn root_of_the_empty_header_is_the_zero_hash_of_eight_leaves() {
    let got = header_root(0, 0, &root(0), &root(0), &root(0));
    assert_eq!(
        ID::Root(got).to_string(),
        "0xc78009fdf07fc56a11f122370658a353aaa542ed63e44c4bc15ff4cd105ab33c"
    );
}

#[test]
fn header_root_tells_the_fields_apart() {
    let base = header_root(1, 2, &root(3), &root(4), &root(5));
    assert_ne!(base, header_root(2, 1, &root(3), &root(4), &root(5)));
    assert_ne!(base, header_root(1, 2, &root(4), &root(3), &root(5)));
    assert_ne!(base, header_root(1, 2, &root(3), &root(4), &root(6)));
    assert_eq!(base, header_root(1, 2, &root(3), &root(4), &root(5)));
}

fn signed_block(slot: u64, parent: Root) -> SignedBeaconBlock {
    SignedBeaconBlock {
        message: BeaconBlock {
            slot,
            proposer_index: 11,
            parent_root: parent,
            state_root: root(8),
            body: BeaconBlockBody {
                root: root(9),
                blob_kzg_commitments: vec![],
                blob_versioned_hashes: vec![],
                attestations: 0,
                sync_committee_bits: 0,
                proposer_slashings: 0,
                attester_slashings: 0,
            },
        },
        signature: BlsSignature { bytes: [4; 96] },
    }
}

#[test]
fn block_root_is_the_root_of_its_header() {
    let block = signed_block(5, root(7));
    let (header, header_root) = get_header_from_slot(&block);
    assert_eq!(block.message.tree_hash_root(), header_root);
    assert_eq!(header_root, expected_root(5, 11, root(7), root(8), root(9)));
    assert_eq!(header.message.slot, 5);
    assert_eq!(header.message.proposer_index, 11);
    assert_eq!(header.message.parent_root, root(7));
    assert_eq!(header.message.state_root, root(8));
    assert_eq!(header.message.body_root, root(9));
    assert_eq!(header.signature.bytes, [4u8; 96]);
}

#[test]
fn header_request_is_about_the_slot_then_the_parent_then_the_latest() {
    assert!(matches!(header_query(None, None), HeaderQuery::Latest));
    assert!(matches!(header_query(None, Some(root(1))), HeaderQuery::ChildOf(r) if r == root(1)));
    assert!(matches!(header_query(Some(4), None), HeaderQuery::AtSlot(4)));
    assert!(matches!(header_query(Some(4), Some(root(1))), HeaderQuery::AtSlot(4)));
    assert_eq!(child_slot(&signed_block(41, root(1))), 42);
}

fn not_found(result: Result<HeaderData, ApiError>) -> String {
    match result {
        Err(ApiError::NotFound(message)) => message,
        other => panic!("expected a header that is not found, got {other:?}"),
    }
}

#[test]
fn header_with_another_parent_is_not_found() {
    let (header, header_root) = get_header_from_slot(&signed_block(5, root(7)));
    let hex_of_1 = "01".repeat(32);

    let data = get_headers(None, None, header, header_root).unwrap();
    assert_eq!(data.root, header_root);
    assert!(data.canonical);
    assert_eq!(data.header.message.slot, 5);

    assert!(get_headers(Some(5), None, header, header_root).is_ok());
    assert!(get_headers(Some(5), Some(root(7)), header, header_root).is_ok());
    assert!(get_headers(None, Some(root(7)), header, header_root).is_ok());

    assert_eq!(
        not_found(get_headers(None, Some(root(1)), header, header_root)),
        format!("Header with parent root :0x{hex_of_1}")
    );
    assert_eq!(
        not_found(get_headers(Some(5), Some(root(1)), header, header_root)),
        format!("Header at slot: 5 with parent root: 0x{hex_of_1} not found")
    );
}
