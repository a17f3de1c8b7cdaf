use vstd::prelude::*;
use crate::primitives::{BlsSignature, KzgCommitment, KzgProof, Root};

verus! {

/// A copy of a vector of plain values.
pub fn copy_of<T: Copy>(items: &Vec<T>) -> (copy: Vec<T>)
    ensures
        copy@ == items@,
{
    let mut copy: Vec<T> = Vec::new();
    let mut i: usize = 0;
    while i < items.len()
        invariant
            i <= items@.len(),
            copy@ == items@.subrange(0, i as int),
        decreases items@.len() - i,
    {
        copy.push(items[i]);
        i += 1;
        assert(copy@ =~= items@.subrange(0, i as int));
    }
    assert(copy@ =~= items@);
    copy
}

/// What the fork choice and its readers look at in a block body.
///
/// `root` is the Merkle root of the whole body and stands for the parts that
/// are not spelled out here.
#[derive(Debug)]
pub struct BeaconBlockBody {
    pub root: Root,
    /// The commitments to the block's blobs, in the order of the body.
    pub blob_kzg_commitments: Vec<KzgCommitment>,
    /// The versioned hashes that the blob transactions of the execution
    /// payload carry, in the order of the payload.
    pub blob_versioned_hashes: Vec<Root>,
    /// How many attestations the body holds.
    pub attestations: u64,
    /// How many bits of the sync committee are set.
    pub sync_committee_bits: u64,
    /// How many proposer slashings the body holds.
    pub proposer_slashings: u64,
    /// How many attester slashings the body holds.
    pub attester_slashings: u64,
}

pub struct BeaconBlockBodyView {
    pub root: Root,
    pub blob_kzg_commitments: Seq<KzgCommitment>,
    pub blob_versioned_hashes: Seq<Root>,
    pub attestations: u64,
    pub sync_committee_bits: u64,
    pub proposer_slashings: u64,
    pub attester_slashings: u64,
}

impl View for BeaconBlockBody {
    type V = BeaconBlockBodyView;

    open spec fn view(&self) -> BeaconBlockBodyView {
        BeaconBlockBodyView {
            root: self.root,
            blob_kzg_commitments: self.blob_kzg_commitments@,
            blob_versioned_hashes: self.blob_versioned_hashes@,
            attestations: self.attestations,
            sync_committee_bits: self.sync_committee_bits,
            proposer_slashings: self.proposer_slashings,
            attester_slashings: self.attester_slashings,
        }
    }
}

impl Clone for BeaconBlockBody {
    fn clone(&self) -> (copy: BeaconBlockBody)
        ensures
            copy@ == self@,
    {
        BeaconBlockBody {
            root: self.root,
            blob_kzg_commitments: copy_of(&self.blob_kzg_commitments),
            blob_versioned_hashes: copy_of(&self.blob_versioned_hashes),
            attestations: self.attestations,
            sync_committee_bits: self.sync_committee_bits,
            proposer_slashings: self.proposer_slashings,
            attester_slashings: self.attester_slashings,
        }
    }
}

/// A beacon block: its header fields and its body.
#[derive(Debug)]
pub struct BeaconBlock {
    pub slot: u64,
    pub proposer_index: u64,
    pub parent_root: Root,
    pub state_root: Root,
    pub body: BeaconBlockBody,
}

pub struct BeaconBlockView {
    pub slot: u64,
    pub proposer_index: u64,
    pub parent_root: Root,
    pub state_root: Root,
    pub body: BeaconBlockBodyView,
}

impl View for BeaconBlock {
    type V = BeaconBlockView;

    open spec fn view(&self) -> BeaconBlockView {
        BeaconBlockView {
            slot: self.slot,
            proposer_index: self.proposer_index,
            parent_root: self.parent_root,
            state_root: self.state_root,
            body: self.body@,
        }
    }
}

impl Clone for BeaconBlock {
    fn clone(&self) -> (copy: BeaconBlock)
        ensures
            copy@ == self@,
    {
        BeaconBlock {
            slot: self.slot,
            proposer_index: self.proposer_index,
            parent_root: self.parent_root,
            state_root: self.state_root,
            body: self.body.clone(),
        }
    }
}

/// A block together with its proposer's signature.
#[derive(Debug)]
pub struct SignedBeaconBlock {
    pub message: BeaconBlock,
    pub signature: BlsSignature,
}

impl Clone for SignedBeaconBlock {
    fn clone(&self) -> (copy: SignedBeaconBlock)
        ensures
            copy.message@ == self.message@,
            copy.signature == self.signature,
    {
        SignedBeaconBlock { message: self.message.clone(), signature: self.signature }
    }
}

/// A blob with the proof that it matches its commitment, as the execution
/// engine hands it out.
#[derive(Debug)]
pub struct BlobAndProof {
    pub blob: Vec<u8>,
    pub proof: KzgProof,
}

} // verus!
