use fork_choice::beacon_block::{BeaconBlock, BeaconBlockBody, SignedBeaconBlock};
use fork_choice::beacon_state::{BeaconState, Fork, Validator};
use fork_choice::checkpoint::Checkpoint;
use fork_choice::database::{Lookup, Read};
use fork_choice::handlers::block::{
    block_root_read, get_beacon_block_from_id, get_block_rewards, get_block_root, get_block_root_from_id,
    BlockRewards,
};
use fork_choice::handlers::config::{
    domain_aggregate_and_proof, DepositContract, SpecConfig, INACTIVITY_PENALTY_QUOTIENT_BELLATRIX,
};
use fork_choice::handlers::debug::DebugResponse;
use fork_choice::handlers::state::{
    get_block_root_from_state_id, get_pending_partial_withdrawals, state_root_read, get_state_finality_checkpoint,
    get_state_fork, get_state_from_id, get_state_randao, CheckpointData, Withdrawal,
    WithdrawalData,
};
use fork_choice::handlers::validator::{
    find_validator, get_validator_from_state, get_validators_from_state, names_too_many,
    post_validators_from_state, select_validators, show_validators, validator_data_at,
    validator_status, ValidatorData, MAX_VALIDATOR_COUNT,
};
use fork_choice::handlers::version::Version;
use fork_choice::primitives::{Address, BlsSignature, PubKey, Root};
use fork_choice::types::errors::ApiError;
use fork_choice::types::id::{ValidatorID, ID};
use fork_choice::types::query::{IdQuery, StatusQuery};

fn root(tag: u8) -> Root {
    Root { bytes: [tag; 32] }
}

fn hex(tag: &str) -> String {
    format!("0x{}", tag.repeat(32))
}

fn checkpoint(epoch: u64, tag: u8) -> Checkpoint {
    Checkpoint { epoch, root: root(tag) }
}

fn not_found<T: std::fmt::Debug>(result: Result<T, ApiError>) -> String {
    match result {
        Err(ApiError::NotFound(message)) => message,
        other => panic!("expected something not found, got {other:?}"),
    }
}

fn validator(tag: u8, exit_epoch: u64) -> Validator {
    Validator {
        pubkey: PubKey { bytes: [tag; 48] },
        withdrawal_credentials: root(tag),
        effective_balance: 32_000_000_000,
        slashed: false,
        activation_eligibility_epoch: 0,
        activation_epoch: 0,
        exit_epoch,
        withdrawable_epoch: u64::MAX,
    }
}

/// A state of slot 100 (epoch 3) with four validators, of which the second
/// has left, and balances for the first three only.
fn state() -> BeaconState {
    BeaconState {
        slot: 100,
        fork: Fork { previous_version: [4, 0, 0, 0], current_version: [5, 0, 0, 0], epoch: 2 },
        previous_justified_checkpoint: checkpoint(1, 1),
        current_justified_checkpoint: checkpoint(2, 2),
        finalized_checkpoint: checkpoint(1, 3),
        validators: vec![validator(1, 9), validator(2, 2), validator(3, 3), validator(1, 9)],
        balances: vec![10, 20, 30],
    }
}

fn signed_block() -> SignedBeaconBlock {
    SignedBeaconBlock {
        message: BeaconBlock {
            slot: 9,
            proposer_index: 21,
            parent_root: root(1),
            state_root: root(2),
            body: BeaconBlockBody {
                root: root(3),
                blob_kzg_commitments: vec![],
                blob_versioned_hashes: vec![],
                attestations: 64,
                sync_committee_bits: 500,
                proposer_slashings: 1,
                attester_slashings: 2,
            },
        },
        signature: BlsSignature { bytes: [7; 96] },
    }
}

#[test]
fn finalized_and_justified_resolve_to_the_root_of_the_checkpoint() {
    for id in [ID::Finalized, ID::Justified] {
        let found = Lookup::Found(checkpoint(4, 8));
        assert_eq!(get_block_root_from_id(id, &found, &Lookup::Missing).unwrap(), root(8));
        assert_eq!(get_block_root_from_state_id(id, &found, &Lookup::Failed).unwrap(), root(8));
        assert!(matches!(
            get_block_root_from_id(id, &Lookup::Failed, &Lookup::Found(root(1))),
            Err(ApiError::InternalError)
        ));
        assert!(matches!(
            get_block_root_from_state_id(id, &Lookup::Failed, &Lookup::Found(root(1))),
            Err(ApiError::InternalError)
        ));
    }
    assert_eq!(
        not_found(get_block_root_from_id(ID::Finalized, &Lookup::Missing, &Lookup::Missing)),
        "Finalized checkpoint not found"
    );
    assert_eq!(
        not_found(get_block_root_from_id(ID::Justified, &Lookup::Missing, &Lookup::Missing)),
        "Justified checkpoint not found"
    );
    assert_eq!(
        not_found(get_block_root_from_state_id(ID::Finalized, &Lookup::Missing, &Lookup::Missing)),
        "Finalized checkpoint not found"
    );
    assert_eq!(
        not_found(get_block_root_from_state_id(ID::Justified, &Lookup::Missing, &Lookup::Missing)),
        "Justified checkpoint not found"
    );
}

#[test]
fn head_and_genesis_are_not_served() {
    let found = Lookup::Found(checkpoint(4, 8));
    assert_eq!(
        not_found(get_block_root_from_id(ID::Head, &found, &Lookup::Found(root(1)))),
        "This ID type is currently not supported: Head"
    );
    assert_eq!(
        not_found(get_block_root_from_id(ID::Genesis, &found, &Lookup::Found(root(1)))),
        "This ID type is currently not supported: Genesis"
    );
    assert_eq!(
        not_found(get_block_root_from_state_id(ID::Head, &found, &Lookup::Found(root(1)))),
        "This ID type is currently not supported: Head"
    );
    assert_eq!(
        not_found(get_block_root_from_state_id(ID::Genesis, &found, &Lookup::Found(root(1)))),
        "This ID type is currently not supported: Genesis"
    );
}

#[test]
fn slot_resolves_through_the_index() {
    let unused = Lookup::Found(checkpoint(4, 8));
    assert_eq!(get_block_root_from_id(ID::Slot(6), &unused, &Lookup::Found(root(5))).unwrap(), root(5));
    assert_eq!(
        not_found(get_block_root_from_id(ID::Slot(6), &unused, &Lookup::Missing)),
        "Failed to find `block_root` from Slot(6)"
    );
    assert!(matches!(
        get_block_root_from_id(ID::Slot(6), &unused, &Lookup::Failed),
        Err(ApiError::InternalError)
    ));
    assert_eq!(
        get_block_root_from_state_id(ID::Slot(6), &unused, &Lookup::Found(root(5))).unwrap(),
        root(5)
    );
    assert_eq!(
        not_found(get_block_root_from_state_id(ID::Slot(6), &unused, &Lookup::Missing)),
        "Failed to find `block_root` from Slot(6)"
    );
}

#[test]
fn root_names_a_block_itself_and_a_state_through_the_index() {
    let id = ID::Root(root(0xaa));
    assert_eq!(get_block_root_from_id(id, &Lookup::Failed, &Lookup::Failed).unwrap(), root(0xaa));
    assert_eq!(
        get_block_root_from_state_id(id, &Lookup::Failed, &Lookup::Found(root(5))).unwrap(),
        root(5)
    );
    assert_eq!(
        not_found(get_block_root_from_state_id(id, &Lookup::Failed, &Lookup::Missing)),
        format!("Failed to find `block_root` from Root({})", hex("aa"))
    );
    assert!(matches!(
        get_block_root_from_state_id(id, &Lookup::Missing, &Lookup::Failed),
        Err(ApiError::InternalError)
    ));
}

#[test]
fn block_and_state_are_handed_on_or_missed() {
    let block = get_beacon_block_from_id(root(1), Lookup::Found(signed_block())).unwrap();
    assert_eq!(block.message.slot, 9);
    assert_eq!(
        not_found(get_beacon_block_from_id(root(0x1c), Lookup::Missing)),
        format!("Failed to find `beacon block` from {}", hex("1c"))
    );
    assert!(matches!(get_beacon_block_from_id(root(1), Lookup::Failed), Err(ApiError::InternalError)));

    let found = get_state_from_id(root(1), Lookup::Found(state())).unwrap();
    assert_eq!(found.slot, 100);
    assert_eq!(
        not_found(get_state_from_id(root(0x1c), Lookup::Missing)),
        format!("Failed to find `beacon_state` from {}", hex("1c"))
    );
    assert!(matches!(get_state_from_id(root(1), Lookup::Failed), Err(ApiError::InternalError)));
}

#[test]
fn block_answers_count_what_the_body_holds() {
    let response = get_block_rewards(&signed_block());
    assert!(!response.execution_optimistic && !response.finalized);
    let BlockRewards {
        proposer_index,
        total,
        attestations,
        sync_aggregate,
        proposer_slashings,
        attester_slashings,
    } = response.data;
    assert_eq!(
        (proposer_index, total, attestations, sync_aggregate, proposer_slashings, attester_slashings),
        (21, 0, 64, 500, 1, 2)
    );
    let empty = BlockRewards::default();
    assert_eq!((empty.proposer_index, empty.total, empty.attestations), (0, 0, 0));
    assert_eq!((empty.sync_aggregate, empty.proposer_slashings, empty.attester_slashings), (0, 0, 0));

    let response = get_block_root(root(4));
    assert_eq!(response.data.root, root(4));
    assert!(!response.execution_optimistic && !response.finalized);
}

#[test]
fn state_answers_show_the_state() {
    let state = state();
    let fork = get_state_fork(&state);
    assert_eq!((fork.previous_version, fork.current_version, fork.epoch), ([4, 0, 0, 0], [5, 0, 0, 0], 2));
    let CheckpointData { previous_justified, current_justified, finalized } =
        get_state_finality_checkpoint(&state);
    assert_eq!(previous_justified, checkpoint(1, 1));
    assert_eq!(current_justified, checkpoint(2, 2));
    assert_eq!(finalized, checkpoint(1, 3));
    let made = CheckpointData::new(checkpoint(1, 1), checkpoint(2, 2), checkpoint(3, 3));
    assert_eq!(made.finalized, checkpoint(3, 3));
    assert_eq!(state.get_current_epoch(), 3);
    assert_eq!(get_state_randao(&state, None), 3);
    assert_eq!(get_state_randao(&state, Some(1)), 1);
    assert_eq!(get_state_randao(&state, Some(0)), 0);
}

fn withdrawal(validator_index: u64, amount: u64) -> Withdrawal {
    Withdrawal { index: 1000 + validator_index, validator_index, address: Address { bytes: [1; 20] }, amount }
}

#[test]
fn pending_partial_withdrawals_keep_the_partial_ones_in_order() {
    let state = state();
    let withdrawals = vec![withdrawal(0, 5), withdrawal(1, 6), withdrawal(2, 7), withdrawal(0, 8)];
    let data = get_pending_partial_withdrawals(&state, &withdrawals, &vec![true, false, true, true]);
    assert_eq!(
        data,
        vec![
            WithdrawalData { validator_index: 0, amount: 5, withdrawable_epoch: 3 },
            WithdrawalData { validator_index: 2, amount: 7, withdrawable_epoch: 3 },
            WithdrawalData { validator_index: 0, amount: 8, withdrawable_epoch: 3 },
        ]
    );
    assert!(get_pending_partial_withdrawals(&state, &withdrawals, &vec![false; 4]).is_empty());
    assert!(get_pending_partial_withdrawals(&state, &vec![], &vec![]).is_empty());
    assert_eq!(
        WithdrawalData::default(),
        WithdrawalData { validator_index: 0, amount: 0, withdrawable_epoch: 0 }
    );
}

#[test]
fn validator_is_offline_once_its_exit_epoch_has_passed() {
    assert_eq!(validator_status(&validator(1, 2), 3), "offline");
    assert_eq!(validator_status(&validator(1, 3), 3), "active_ongoing");
    assert_eq!(validator_status(&validator(1, 4), 3), "active_ongoing");
    assert_eq!(validator_status(&validator(1, u64::MAX), u64::MAX), "active_ongoing");
    assert_eq!(validator_status(&validator(1, 0), 0), "active_ongoing");
}

#[test]
fn validator_is_found_by_place_or_by_its_first_key() {
    let state = state();
    assert_eq!(find_validator(&state, &ValidatorID::Index(0)).unwrap(), 0);
    assert_eq!(find_validator(&state, &ValidatorID::Index(3)).unwrap(), 3);
    assert_eq!(
        not_found(find_validator(&state, &ValidatorID::Index(4))),
        "Validator not found for index: 4"
    );
    assert_eq!(
        not_found(find_validator(&state, &ValidatorID::Index(u64::MAX))),
        "Validator not found for index: 18446744073709551615"
    );
    assert_eq!(find_validator(&state, &ValidatorID::Address(PubKey { bytes: [3; 48] })).unwrap(), 2);
    // Two validators share the key of tag 1: the first one is meant.
    assert_eq!(find_validator(&state, &ValidatorID::Address(PubKey { bytes: [1; 48] })).unwrap(), 0);
    assert_eq!(
        not_found(find_validator(&state, &ValidatorID::Address(PubKey { bytes: [0xee; 48] }))),
        format!("Validator not found for pubkey: 0x{}", "ee".repeat(48))
    );
}

fn shown(data: &ValidatorData) -> (u64, u64, &str, u8) {
    (data.index, data.balance, data.status.as_str(), data.validator.pubkey.bytes[0])
}

#[test]
fn one_validator_is_shown_with_balance_and_status() {
    let state = state();
    let data = get_validator_from_state(&state, &ValidatorID::Index(1), 3).unwrap();
    assert_eq!(shown(&data), (1, 20, "offline", 2));
    let data = get_validator_from_state(&state, &ValidatorID::Address(PubKey { bytes: [3; 48] }), 3).unwrap();
    assert_eq!(shown(&data), (2, 30, "active_ongoing", 3));
    let data = get_validator_from_state(&state, &ValidatorID::Index(1), 2).unwrap();
    assert_eq!(shown(&data), (1, 20, "active_ongoing", 2));
    assert_eq!(
        not_found(get_validator_from_state(&state, &ValidatorID::Index(3), 3)),
        "Validator not found for index: 3"
    );
    assert_eq!(
        not_found(get_validator_from_state(&state, &ValidatorID::Index(9), 3)),
        "Validator not found for index: 9"
    );
    assert_eq!(shown(&validator_data_at(&state, 0, 3).unwrap()), (0, 10, "active_ongoing", 1));
    let made = ValidatorData::new(4, 5, "x".to_string(), validator(6, 7));
    assert_eq!(shown(&made), (4, 5, "x", 6));
}

fn ids(list: Vec<ValidatorID>) -> IdQuery {
    IdQuery { id: Some(list) }
}

fn statuses(list: &[&str]) -> StatusQuery {
    StatusQuery { status: Some(list.iter().map(|s| s.to_string()).collect()) }
}

fn all_statuses() -> StatusQuery {
    StatusQuery { status: None }
}

fn summary(data: Vec<ValidatorData>) -> Vec<(u64, u64, String)> {
    data.into_iter().map(|d| (d.index, d.balance, d.status)).collect()
}

#[test]
fn status_query_names_statuses() {
    assert!(!all_statuses().has_status());
    assert!(!statuses(&[]).has_status());
    assert!(statuses(&["offline"]).has_status());
    assert!(statuses(&["offline", "x"]).contains_status(&"x".to_string()));
    assert!(!statuses(&["offline", "x"]).contains_status(&"y".to_string()));
    assert!(!statuses(&[]).contains_status(&"y".to_string()));
    assert!(!all_statuses().contains_status(&"offline".to_string()));
}

#[test]
fn named_validators_are_shown_in_the_order_of_the_request() {
    let state = state();
    let query = ids(vec![
        ValidatorID::Index(2),
        ValidatorID::Address(PubKey { bytes: [1; 48] }),
        ValidatorID::Index(1),
        ValidatorID::Index(2),
    ]);
    let expected = vec![
        (2, 30, "active_ongoing".to_string()),
        (0, 10, "active_ongoing".to_string()),
        (1, 20, "offline".to_string()),
        (2, 30, "active_ongoing".to_string()),
    ];
    assert_eq!(summary(get_validators_from_state(&state, &query, &all_statuses(), 3).unwrap()), expected);
    assert_eq!(summary(post_validators_from_state(&state, &query, &all_statuses(), 3).unwrap()), expected);
    assert_eq!(select_validators(&state, &query).unwrap(), vec![2, 0, 1, 2]);
}

#[test]
fn statuses_leave_validators_out() {
    let state = state();
    let query = ids(vec![ValidatorID::Index(0), ValidatorID::Index(1), ValidatorID::Index(2)]);
    assert_eq!(
        summary(get_validators_from_state(&state, &query, &statuses(&["offline"]), 3).unwrap()),
        vec![(1, 20, "offline".to_string())]
    );
    assert_eq!(
        summary(post_validators_from_state(&state, &query, &statuses(&["active_ongoing"]), 3).unwrap()),
        vec![(0, 10, "active_ongoing".to_string()), (2, 30, "active_ongoing".to_string())]
    );
    assert!(get_validators_from_state(&state, &query, &statuses(&["exited"]), 3).unwrap().is_empty());
    // An empty list of statuses leaves nothing out.
    assert_eq!(get_validators_from_state(&state, &query, &statuses(&[]), 3).unwrap().len(), 3);
}

#[test]
fn request_without_identifiers_selects_the_whole_registry() {
    let mut state = state();
    assert_eq!(select_validators(&state, &IdQuery { id: None }).unwrap(), vec![0, 1, 2, 3]);
    // No balance is kept for the last place.
    assert_eq!(
        not_found(get_validators_from_state(&state, &IdQuery { id: None }, &all_statuses(), 3)),
        "Validator not found for index: 3"
    );
    // It does not matter where the validator there is left out anyway.
    assert_eq!(
        summary(get_validators_from_state(&state, &IdQuery { id: None }, &statuses(&["offline"]), 3).unwrap()),
        vec![(1, 20, "offline".to_string())]
    );
    state.balances.push(40);
    assert_eq!(
        summary(post_validators_from_state(&state, &IdQuery { id: None }, &all_statuses(), 3).unwrap()),
        vec![
            (0, 10, "active_ongoing".to_string()),
            (1, 20, "offline".to_string()),
            (2, 30, "active_ongoing".to_string()),
            (3, 40, "active_ongoing".to_string()),
        ]
    );
    assert!(get_validators_from_state(&state, &ids(vec![]), &all_statuses(), 3).unwrap().is_empty());
}

#[test]
fn first_unknown_identifier_fails_the_request() {
    let state = state();
    let query = ids(vec![
        ValidatorID::Index(3),
        ValidatorID::Index(17),
        ValidatorID::Address(PubKey { bytes: [0xee; 48] }),
    ]);
    assert_eq!(
        not_found(get_validators_from_state(&state, &query, &all_statuses(), 3)),
        "Validator not found for index: 17"
    );
    assert_eq!(not_found(select_validators(&state, &query)), "Validator not found for index: 17");
    // An unknown identifier is said before a missing balance.
    let query = ids(vec![ValidatorID::Index(3), ValidatorID::Address(PubKey { bytes: [0xee; 48] })]);
    assert_eq!(
        not_found(post_validators_from_state(&state, &query, &all_statuses(), 3)),
        format!("Validator not found for pubkey: 0x{}", "ee".repeat(48))
    );
    assert_eq!(
        not_found(show_validators(&state, &vec![1, 3, 0], &all_statuses(), 3)),
        "Validator not found for index: 3"
    );
}

#[test]
fn too_many_identifiers_are_refused_in_a_query_only() {
    let state = state();
    assert_eq!(MAX_VALIDATOR_COUNT, 100);
    let many = ids(vec![ValidatorID::Index(0); 100]);
    assert!(matches!(
        get_validators_from_state(&state, &many, &all_statuses(), 3),
        Err(ApiError::TooManyValidatorsIds)
    ));
    assert_eq!(post_validators_from_state(&state, &many, &all_statuses(), 3).unwrap().len(), 100);
    assert!(names_too_many(&many));
    let fewer = ids(vec![ValidatorID::Index(0); 99]);
    assert!(!names_too_many(&fewer));
    assert!(!names_too_many(&IdQuery { id: None }));
    assert_eq!(get_validators_from_state(&state, &fewer, &all_statuses(), 3).unwrap().len(), 99);
    // The count is held against the request before its identifiers are read.
    let unknown = ids(vec![ValidatorID::Index(50); 100]);
    assert!(matches!(
        get_validators_from_state(&state, &unknown, &all_statuses(), 3),
        Err(ApiError::TooManyValidatorsIds)
    ));
}

#[test]
fn configuration_shows_contract_and_constants() {
    let address = Address { bytes: [0x11; 20] };
    let contract = DepositContract::new(5, address);
    assert_eq!((contract.chain_id, contract.address.bytes), (5, [0x11; 20]));
    let contract = DepositContract::default();
    assert_eq!((contract.chain_id, contract.address.bytes), (0, [0; 20]));

    let config = SpecConfig::from(address, 17000);
    assert_eq!(config.deposit_contract_address.bytes, [0x11; 20]);
    assert_eq!(config.deposit_network_id, 17000);
    assert_eq!(config.domain_aggregate_and_proof, [6, 0, 0, 0]);
    assert_eq!(config.inactivity_penalty_quotient, 1 << 24);
    assert_eq!(INACTIVITY_PENALTY_QUOTIENT_BELLATRIX, 16_777_216);
    assert_eq!(domain_aggregate_and_proof(), [6, 0, 0, 0]);

    let config = SpecConfig::default();
    assert_eq!(config.deposit_contract_address.bytes, [0; 20]);
    assert_eq!(config.deposit_network_id, 0);
    assert_eq!(config.domain_aggregate_and_proof, [0; 4]);
    assert_eq!(config.inactivity_penalty_quotient, 0);
}

#[test]
fn version_and_debug_answers_wrap_their_data() {
    assert_eq!(Version::new("node/v1".to_string()).version, "node/v1");
    assert_eq!(Version::default().version, "");
    assert_eq!(DebugResponse { data: "beacon_states" }.data, "beacon_states");
}

#[test]
fn identifier_says_what_is_to_be_read() {
    assert!(matches!(block_root_read(&ID::Finalized), Read::FinalizedCheckpoint));
    assert!(matches!(block_root_read(&ID::Justified), Read::JustifiedCheckpoint));
    assert!(matches!(block_root_read(&ID::Slot(9)), Read::SlotIndex(9)));
    assert!(matches!(block_root_read(&ID::Root(root(1))), Read::Nothing));
    assert!(matches!(block_root_read(&ID::Head), Read::Nothing));
    assert!(matches!(block_root_read(&ID::Genesis), Read::Nothing));

    assert!(matches!(state_root_read(&ID::Finalized), Read::FinalizedCheckpoint));
    assert!(matches!(state_root_read(&ID::Justified), Read::JustifiedCheckpoint));
    assert!(matches!(state_root_read(&ID::Slot(9)), Read::SlotIndex(9)));
    assert!(matches!(state_root_read(&ID::Root(root(1))), Read::StateRootIndex(r) if r == root(1)));
    assert!(matches!(state_root_read(&ID::Head), Read::Nothing));
    assert!(matches!(state_root_read(&ID::Genesis), Read::Nothing));
}
