use vstd::prelude::*;
use vstd::string::StringExecFns;
use crate::primitives::Root;

verus! {

pub const ELECTRA: &'static str = "electra";

pub const ETH_CONSENSUS_VERSION_HEADER: &'static str = "Eth-Consensus-Version";

const EXECUTION_OPTIMISTIC: bool = false;

const FINALIZED: bool = false;

#[derive(Debug)]
pub struct RootResponse {
    pub root: Root,
}

impl RootResponse {
    pub fn new(root: Root) -> (response: RootResponse)
        ensures
            response.root == root,
    {
        RootResponse { root }
    }
}

/// The envelope of an answer: the data, marked as neither optimistic nor
/// finalized.
#[derive(Debug)]
pub struct BeaconResponse<T> {
    pub execution_optimistic: bool,
    pub finalized: bool,
    pub data: T,
}

impl<T> BeaconResponse<T> {
    pub fn from(data: T) -> (response: BeaconResponse<T>)
        ensures
            response.data == data,
            !response.execution_optimistic,
            !response.finalized,
    {
        BeaconResponse { data, execution_optimistic: EXECUTION_OPTIMISTIC, finalized: FINALIZED }
    }
}

/// The envelope of an answer that names the fork its data belongs to.
#[derive(Debug)]
pub struct BeaconVersionedResponse<T> {
    pub version: String,
    pub execution_optimistic: bool,
    pub finalized: bool,
    pub data: T,
}

impl<T> BeaconVersionedResponse<T> {
    pub fn new(data: T) -> (response: BeaconVersionedResponse<T>)
        ensures
            response.data == data,
            response.version@ == "electra"@,
            !response.execution_optimistic,
            !response.finalized,
    {
        BeaconVersionedResponse {
            version: String::from_str("electra"),
            data,
            execution_optimistic: EXECUTION_OPTIMISTIC,
            finalized: FINALIZED,
        }
    }
}

} // verus!
