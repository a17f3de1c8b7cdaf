use vstd::prelude::*;
use vstd::string::StringExecFns;
use crate::beacon_state::{BeaconState, BeaconStateView, Validator};
use crate::primitives::PubKey;
use crate::text::{decimal_of, decimal_string, hex_encode, joined, lower_hex};
use crate::types::errors::{ApiError, ApiErrorView};
use crate::types::id::ValidatorID;
use crate::types::query::{IdQuery, StatusQuery};

verus! {

/// The most validator ids that one request may name, and one more.
pub const MAX_VALIDATOR_COUNT: usize = 100;

/// A validator as the API shows it.
#[derive(Debug)]
pub struct ValidatorData {
    pub index: u64,
    pub balance: u64,
    pub status: String,
    pub validator: Validator,
}

/// A shown validator with its status as a sequence of characters.
pub struct ValidatorDataView {
    pub index: u64,
    pub balance: u64,
    pub status: Seq<char>,
    pub validator: Validator,
}

impl View for ValidatorData {
    type V = ValidatorDataView;

    open spec fn view(&self) -> ValidatorDataView {
        ValidatorDataView {
            index: self.index,
            balance: self.balance,
            status: self.status@,
            validator: self.validator,
        }
    }
}

impl ValidatorData {
    pub fn new(index: u64, balance: u64, status: String, validator: Validator) -> (data:
        ValidatorData)
        ensures
            data.index == index,
            data.balance == balance,
            data.status == status,
            data.validator == validator,
    {
        ValidatorData { index, balance, status, validator }
    }
}

/// The status of a validator in a given epoch: offline once its exit epoch
/// has passed, else active.
pub open spec fn status_of(validator: Validator, current_epoch: u64) -> Seq<char> {
    if validator.exit_epoch < current_epoch {
        "offline"@
    } else {
        "active_ongoing"@
    }
}

pub fn validator_status(validator: &Validator, current_epoch: u64) -> (status: String)
    ensures
        status@ == status_of(*validator, current_epoch),
{
    if validator.exit_epoch < current_epoch {
        String::from_str("offline")
    } else {
        String::from_str("active_ongoing")
    }
}

/// The place of the first validator with the given key, if there is one.
#[verifier::opaque]
pub open spec fn first_with_key(validators: Seq<Validator>, key: PubKey) -> Option<int> {
    if exists|i: int| 0 <= i < validators.len() && validators[i].pubkey == key {
        Some(
            choose|i: int|
                0 <= i < validators.len() && validators[i].pubkey == key && forall|j: int|
                    0 <= j < i ==> validators[j].pubkey != key,
        )
    } else {
        None
    }
}

/// The place in the registry of the validator that an identifier names.
pub open spec fn place_of(validators: Seq<Validator>, id: ValidatorID) -> Option<int> {
    match id {
        ValidatorID::Index(index) => if index < validators.len() {
            Some(index as int)
        } else {
            None
        },
        ValidatorID::Address(key) => first_with_key(validators, key),
    }
}

/// What is said of an identifier that names no validator of the registry.
pub open spec fn not_in_registry(id: ValidatorID) -> Seq<char> {
    match id {
        ValidatorID::Index(index) => "Validator not found for index: "@ + decimal_of(
            index as nat,
        ),
        ValidatorID::Address(key) => "Validator not found for pubkey: 0x"@ + lower_hex(key@),
    }
}

/// What is said of a place in the registry for which no balance is kept.
pub open spec fn no_balance(index: int) -> Seq<char> {
    "Validator not found for index: "@ + decimal_of(index as nat)
}

/// Finds the validator that an identifier names: by its place in the
/// registry, or as the first one with the given key.
pub fn find_validator(state: &BeaconState, validator_id: &ValidatorID) -> (place: Result<
    usize,
    ApiError,
>)
    ensures
        match place {
            Ok(i) => i < state@.validators.len() && place_of(state@.validators, *validator_id)
                == Some(i as int),
            Err(e) => place_of(state@.validators, *validator_id) is None && e@
                == ApiErrorView::NotFound(not_in_registry(*validator_id)),
        },
{
    match validator_id {
        ValidatorID::Index(index) => {
            if *index < state.validators.len() as u64 {
                Ok(*index as usize)
            } else {
                Err(
                    ApiError::NotFound(
                        joined(
                            "Validator not found for index: ",
                            decimal_string(*index).as_str(),
                        ),
                    ),
                )
            }
        },
        ValidatorID::Address(key) => {
            let mut i: usize = 0;
            while i < state.validators.len()
                invariant
                    i <= state.validators@.len(),
                    *validator_id == ValidatorID::Address(*key),
                    forall|j: int| 0 <= j < i ==> state.validators@[j].pubkey != *key,
                decreases state.validators@.len() - i,
            {
                if state.validators[i].pubkey == *key {
                    proof {
                        reveal(first_with_key);
                        let validators = state@.validators;
                        assert(validators[i as int].pubkey == *key);
                        let first = choose|f: int|
                            0 <= f < validators.len() && validators[f].pubkey == *key && forall|
                                j: int,
                            |
                                0 <= j < f ==> validators[j].pubkey != *key;
                        assert(first == i) by {
                            if first < i {
                                assert(validators[first].pubkey != *key);
                            }
                            if i < first {
                                assert(validators[i as int].pubkey != *key);
                            }
                        }
                    }
                    return Ok(i);
                }
                i += 1;
            }
            proof {
                reveal(first_with_key);
            }
            Err(
                ApiError::NotFound(
                    joined(
                        "Validator not found for pubkey: 0x",
                        hex_encode(key.bytes.as_slice()).as_str(),
                    ),
                ),
            )
        },
    }
}

/// The validator at place `index` as the API shows it, or `None` where no
/// balance is kept for that place.
pub open spec fn shown_at(state: BeaconStateView, index: int, current_epoch: u64) -> Option<
    ValidatorDataView,
> {
    if index < state.balances.len() {
        Some(
            ValidatorDataView {
                index: index as u64,
                balance: state.balances[index],
                status: status_of(state.validators[index], current_epoch),
                validator: state.validators[index],
            },
        )
    } else {
        None
    }
}

/// Shows the validator at place `index` of the registry.
pub fn validator_data_at(state: &BeaconState, index: usize, current_epoch: u64) -> (data: Result<
    ValidatorData,
    ApiError,
>)
    requires
        index < state.validators@.len(),
    ensures
        match data {
            Ok(data) => shown_at(state@, index as int, current_epoch) == Some(data@),
            Err(e) => shown_at(state@, index as int, current_epoch) is None && e@
                == ApiErrorView::NotFound(no_balance(index as int)),
        },
{
    let validator = state.validators[index];
    if index >= state.balances.len() {
        return Err(
            ApiError::NotFound(
                joined("Validator not found for index: ", decimal_string(index as u64).as_str()),
            ),
        );
    }
    let balance = state.balances[index];
    let status = validator_status(&validator, current_epoch);
    Ok(ValidatorData::new(index as u64, balance, status, validator))
}

/// Finds the validator that `validator_id` names in `state` and shows it
/// with its balance and its status in `current_epoch`.
pub fn get_validator_from_state(
    state: &BeaconState,
    validator_id: &ValidatorID,
    current_epoch: u64,
) -> (data: Result<ValidatorData, ApiError>)
    ensures
        match place_of(state@.validators, *validator_id) {
            None => data is Err && data->Err_0@ == ApiErrorView::NotFound(
                not_in_registry(*validator_id),
            ),
            Some(index) => match shown_at(state@, index, current_epoch) {
                None => data is Err && data->Err_0@ == ApiErrorView::NotFound(no_balance(index)),
                Some(shown) => data is Ok && data->Ok_0@ == shown,
            },
        },
{
    match find_validator(state, validator_id) {
        Ok(index) => validator_data_at(state, index, current_epoch),
        Err(e) => Err(e),
    }
}

/// The places of the validators that the identifiers name, in their
/// order. An identifier that names no validator fails the request; the
/// first such one is complained of.
pub open spec fn named_places(validators: Seq<Validator>, ids: Seq<ValidatorID>) -> Result<
    Seq<int>,
    ApiErrorView,
>
    decreases ids.len(),
{
    if ids.len() == 0 {
        Ok(Seq::<int>::empty())
    } else {
        match named_places(validators, ids.drop_last()) {
            Err(e) => Err(e),
            Ok(before) => match place_of(validators, ids.last()) {
                Some(place) => Ok(before.push(place)),
                None => Err(ApiErrorView::NotFound(not_in_registry(ids.last()))),
            },
        }
    }
}

/// The places of the validators that a request selects: those that its
/// identifiers name, or, where it names none, every place of the registry.
pub open spec fn selected(validators: Seq<Validator>, ids: Option<Vec<ValidatorID>>) -> Result<
    Seq<int>,
    ApiErrorView,
> {
    match ids {
        Some(ids) => named_places(validators, ids@),
        None => Ok(Seq::new(validators.len(), |k: int| k)),
    }
}

/// The places of a vector as integers.
pub open spec fn as_places(places: Seq<usize>) -> Seq<int> {
    Seq::new(places.len(), |k: int| places[k] as int)
}

/// Identifiers of which the first ones fail, fail in the same way as a whole.
pub proof fn lemma_named_places_fails_on(
    validators: Seq<Validator>,
    ids: Seq<ValidatorID>,
    upto: int,
)
    requires
        0 <= upto <= ids.len(),
        named_places(validators, ids.subrange(0, upto)) is Err,
    ensures
        named_places(validators, ids) == named_places(validators, ids.subrange(0, upto)),
    decreases ids.len() - upto,
{
    if upto < ids.len() {
        assert(ids.subrange(0, upto + 1).drop_last() =~= ids.subrange(0, upto));
        lemma_named_places_fails_on(validators, ids, upto + 1);
    } else {
        assert(ids.subrange(0, upto) =~= ids);
    }
}

/// Resolves the identifiers of a request to places in the registry.
pub fn select_validators(state: &BeaconState, id_query: &IdQuery) -> (places: Result<
    Vec<usize>,
    ApiError,
>)
    ensures
        match places {
            Ok(places) => selected(state@.validators, id_query.id) == Ok::<
                Seq<int>,
                ApiErrorView,
            >(as_places(places@)) && forall|k: int|
                0 <= k < places@.len() ==> (#[trigger] places@[k]) < state@.validators.len(),
            Err(e) => selected(state@.validators, id_query.id) == Err::<Seq<int>, ApiErrorView>(e@),
        },
{
    let mut places: Vec<usize> = Vec::new();
    match &id_query.id {
        Some(ids) => {
            let mut k: usize = 0;
            assert(as_places(places@) =~= Seq::<int>::empty());
            while k < ids.len()
                invariant
                    k <= ids@.len(),
                    id_query.id == Some(*ids),
                    named_places(state@.validators, ids@.subrange(0, k as int)) == Ok::<
                        Seq<int>,
                        ApiErrorView,
                    >(as_places(places@)),
                    forall|j: int|
                        0 <= j < places@.len() ==> (#[trigger] places@[j])
                            < state@.validators.len(),
                decreases ids@.len() - k,
            {
                proof {
                    let upto = ids@.subrange(0, k + 1);
                    assert(upto.drop_last() =~= ids@.subrange(0, k as int));
                    assert(upto.last() == ids@[k as int]);
                }
                match find_validator(state, &ids[k]) {
                    Ok(index) => {
                        let ghost before = as_places(places@);
                        places.push(index);
                        assert(as_places(places@) =~= before.push(index as int));
                    },
                    Err(e) => {
                        proof {
                            lemma_named_places_fails_on(state@.validators, ids@, k + 1);
                        }
                        return Err(e);
                    },
                }
                k += 1;
            }
            proof {
                assert(ids@.subrange(0, k as int) =~= ids@);
            }
        },
        None => {
            let mut k: usize = 0;
            while k < state.validators.len()
                invariant
                    k <= state.validators@.len(),
                    places@.len() == k,
                    forall|j: int| 0 <= j < k ==> (#[trigger] places@[j]) == j,
                decreases state.validators@.len() - k,
            {
                places.push(k);
                k += 1;
            }
            proof {
                assert(as_places(places@) =~= Seq::new(state@.validators.len(), |k: int| k));
            }
        },
    }
    Ok(places)
}

/// The validators at the given places as the API shows them, in their
/// order, without those whose status the request leaves out. A place for
/// which no balance is kept fails the request, unless the validator there
/// is left out anyway; the first such place is complained of.
pub open spec fn shown_all(
    state: BeaconStateView,
    places: Seq<int>,
    status_query: StatusQuery,
    current_epoch: u64,
) -> Result<Seq<ValidatorDataView>, ApiErrorView>
    decreases places.len(),
{
    if places.len() == 0 {
        Ok(Seq::<ValidatorDataView>::empty())
    } else {
        match shown_all(state, places.drop_last(), status_query, current_epoch) {
            Err(e) => Err(e),
            Ok(before) => {
                let index = places.last();
                if status_query.excludes(status_of(state.validators[index], current_epoch)) {
                    Ok(before)
                } else {
                    match shown_at(state, index, current_epoch) {
                        Some(shown) => Ok(before.push(shown)),
                        None => Err(ApiErrorView::NotFound(no_balance(index))),
                    }
                }
            },
        }
    }
}

/// The views of shown validators.
pub open spec fn views_of(data: Seq<ValidatorData>) -> Seq<ValidatorDataView> {
    Seq::new(data.len(), |k: int| data[k]@)
}

/// A result of shown validators with both sides taken by their views.
pub open spec fn viewed_data(data: Result<Vec<ValidatorData>, ApiError>) -> Result<
    Seq<ValidatorDataView>,
    ApiErrorView,
> {
    match data {
        Ok(data) => Ok(views_of(data@)),
        Err(e) => Err(e@),
    }
}

/// Shows the validators at the given places of the registry.
pub fn show_validators(
    state: &BeaconState,
    places: &Vec<usize>,
    status_query: &StatusQuery,
    current_epoch: u64,
) -> (data: Result<Vec<ValidatorData>, ApiError>)
    requires
        forall|k: int| 0 <= k < places@.len() ==> (#[trigger] places@[k]) < state@.validators.len(),
    ensures
        viewed_data(data) == shown_all(state@, as_places(places@), *status_query, current_epoch),
{
    let mut validators_data: Vec<ValidatorData> = Vec::new();
    let mut k: usize = 0;
    assert(views_of(validators_data@) =~= Seq::<ValidatorDataView>::empty());
    while k < places.len()
        invariant
            k <= places@.len(),
            forall|j: int|
                0 <= j < places@.len() ==> (#[trigger] places@[j]) < state@.validators.len(),
            shown_all(
                state@,
                as_places(places@).subrange(0, k as int),
                *status_query,
                current_epoch,
            ) == Ok::<Seq<ValidatorDataView>, ApiErrorView>(views_of(validators_data@)),
        decreases places@.len() - k,
    {
        let index = places[k];
        let validator = &state.validators[index];
        let status = validator_status(validator, current_epoch);
        proof {
            let upto = as_places(places@).subrange(0, k + 1);
            assert(upto.drop_last() =~= as_places(places@).subrange(0, k as int));
            assert(upto.last() == index);
        }
        if status_query.has_status() && !status_query.contains_status(&status) {
            k += 1;
            continue;
        }
        match validator_data_at(state, index, current_epoch) {
            Ok(shown) => {
                let ghost before = views_of(validators_data@);
                validators_data.push(shown);
                assert(views_of(validators_data@) =~= before.push(shown@));
            },
            Err(e) => {
                proof {
                    lemma_shown_all_fails_on(
                        state@,
                        as_places(places@),
                        *status_query,
                        current_epoch,
                        k + 1,
                    );
                }
                return Err(e);
            },
        }
        k += 1;
    }
    proof {
        assert(as_places(places@).subrange(0, k as int) =~= as_places(places@));
    }
    Ok(validators_data)
}

/// A request that fails on its first places fails in the same way on all
/// of them.
pub proof fn lemma_shown_all_fails_on(
    state: BeaconStateView,
    places: Seq<int>,
    status_query: StatusQuery,
    current_epoch: u64,
    upto: int,
)
    requires
        0 <= upto <= places.len(),
        shown_all(state, places.subrange(0, upto), status_query, current_epoch) is Err,
    ensures
        shown_all(state, places, status_query, current_epoch) == shown_all(
            state,
            places.subrange(0, upto),
            status_query,
            current_epoch,
        ),
    decreases places.len() - upto,
{
    if upto < places.len() {
        assert(places.subrange(0, upto + 1).drop_last() =~= places.subrange(0, upto));
        lemma_shown_all_fails_on(state, places, status_query, current_epoch, upto + 1);
    } else {
        assert(places.subrange(0, upto) =~= places);
    }
}

/// What a request for validators gives: the validators that it selects,
/// shown, without those whose status it leaves out.
pub open spec fn validators_shown(
    state: BeaconStateView,
    id_query: IdQuery,
    status_query: StatusQuery,
    current_epoch: u64,
) -> Result<Seq<ValidatorDataView>, ApiErrorView> {
    match selected(state.validators, id_query.id) {
        Ok(places) => shown_all(state, places, status_query, current_epoch),
        Err(e) => Err(e),
    }
}

/// Answers a request that names its validators and statuses in its body.
pub fn post_validators_from_state(
    state: &BeaconState,
    id_query: &IdQuery,
    status_query: &StatusQuery,
    current_epoch: u64,
) -> (data: Result<Vec<ValidatorData>, ApiError>)
    ensures
        viewed_data(data) == validators_shown(state@, *id_query, *status_query, current_epoch),
{
    // First, collect all the validator indices we need to process.
    match select_validators(state, id_query) {
        Ok(places) => show_validators(state, &places, status_query, current_epoch),
        Err(e) => Err(e),
    }
}

/// Whether a request names more validators than one request may.
pub open spec fn too_many(id_query: IdQuery) -> bool {
    id_query.id is Some && id_query.id.unwrap()@.len() >= MAX_VALIDATOR_COUNT
}

/// Holds the number of validators that a request names against the limit.
pub fn names_too_many(id_query: &IdQuery) -> (refused: bool)
    ensures
        refused == too_many(*id_query),
{
    match &id_query.id {
        Some(validator_ids) => validator_ids.len() >= MAX_VALIDATOR_COUNT,
        None => false,
    }
}

/// Answers a request that names its validators and statuses in its query:
/// refused where it names too many validators, else as for a request that
/// names them in its body.
pub fn get_validators_from_state(
    state: &BeaconState,
    id_query: &IdQuery,
    status_query: &StatusQuery,
    current_epoch: u64,
) -> (data: Result<Vec<ValidatorData>, ApiError>)
    ensures
        viewed_data(data) == if too_many(*id_query) {
            Err::<Seq<ValidatorDataView>, ApiErrorView>(ApiErrorView::TooManyValidatorsIds)
        } else {
            validators_shown(state@, *id_query, *status_query, current_epoch)
        },
{
    if names_too_many(id_query) {
        return Err(ApiError::TooManyValidatorsIds);
    }
    post_validators_from_state(state, id_query, status_query, current_epoch)
}

} // verus!
