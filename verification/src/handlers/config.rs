use vstd::prelude::*;
use crate::primitives::Address;

verus! {

/// The domain of aggregates and proofs, as four bytes.
pub fn domain_aggregate_and_proof() -> (domain: [u8; 4])
    ensures
        domain@ == seq![6u8, 0u8, 0u8, 0u8],
{
    let domain: [u8; 4] = [6, 0, 0, 0];
    assert(domain@ =~= seq![6u8, 0u8, 0u8, 0u8]);
    domain
}

/// The quotient of the inactivity penalty since Bellatrix.
pub const INACTIVITY_PENALTY_QUOTIENT_BELLATRIX: u64 = 16777216;

/// Where deposits are made: the chain and the contract on it.
#[derive(Debug, Clone, Copy)]
pub struct DepositContract {
    pub chain_id: u64,
    pub address: Address,
}

impl DepositContract {
    pub fn new(chain_id: u64, address: Address) -> (contract: DepositContract)
        ensures
            contract.chain_id == chain_id,
            contract.address == address,
    {
        DepositContract { chain_id, address }
    }
}

impl Default for DepositContract {
    fn default() -> (contract: DepositContract)
        ensures
            contract.chain_id == 0,
            contract.address.bytes@ == Seq::new(20, |i: int| 0u8),
    {
        let contract = DepositContract { chain_id: 0, address: Address { bytes: [0u8; 20] } };
        assert(contract.address.bytes@ =~= Seq::new(20, |i: int| 0u8));
        contract
    }
}

/// The part of the network's configuration that the API shows.
#[derive(Debug, Clone, Copy)]
pub struct SpecConfig {
    pub deposit_contract_address: Address,
    pub deposit_network_id: u64,
    pub domain_aggregate_and_proof: [u8; 4],
    pub inactivity_penalty_quotient: u64,
}

impl SpecConfig {
    /// The configuration of a network with the given deposit contract and
    /// chain.
    pub fn from(deposit_contract_address: Address, deposit_network_id: u64) -> (config: SpecConfig)
        ensures
            config.deposit_contract_address == deposit_contract_address,
            config.deposit_network_id == deposit_network_id,
            config.domain_aggregate_and_proof@ == seq![6u8, 0u8, 0u8, 0u8],
            config.inactivity_penalty_quotient == INACTIVITY_PENALTY_QUOTIENT_BELLATRIX,
    {
        SpecConfig {
            deposit_contract_address,
            deposit_network_id,
            domain_aggregate_and_proof: domain_aggregate_and_proof(),
            inactivity_penalty_quotient: INACTIVITY_PENALTY_QUOTIENT_BELLATRIX,
        }
    }
}

impl Default for SpecConfig {
    fn default() -> (config: SpecConfig)
        ensures
            config.deposit_contract_address.bytes@ == Seq::new(20, |i: int| 0u8),
            config.deposit_network_id == 0,
            config.domain_aggregate_and_proof@ == Seq::new(4, |i: int| 0u8),
            config.inactivity_penalty_quotient == 0,
    {
        let config = SpecConfig {
            deposit_contract_address: Address { bytes: [0u8; 20] },
            deposit_network_id: 0,
            domain_aggregate_and_proof: [0u8; 4],
            inactivity_penalty_quotient: 0,
        };
        assert(config.deposit_contract_address.bytes@ =~= Seq::new(20, |i: int| 0u8));
        assert(config.domain_aggregate_and_proof@ =~= Seq::new(4, |i: int| 0u8));
        config
    }
}

} // verus!
