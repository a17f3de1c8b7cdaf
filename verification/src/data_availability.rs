use vstd::prelude::*;
use crate::beacon_block::{copy_of, BlobAndProof};
use crate::fork_choice::ForkChoiceError;
use crate::primitives::{KzgCommitment, KzgProof, Root};
use crate::store::Store;

verus! {

/// What the execution engine and the KZG batch check report about the
/// blobs of one block.
#[derive(Debug)]
pub struct BlobReport {
    /// The engine's answer, one entry for each versioned hash that it was
    /// asked for, in their order; `None` where the engine gave no answer
    /// in time.
    pub blobs_and_proofs: Option<Vec<Option<BlobAndProof>>>,
    /// Whether the batch check accepted the blobs and proofs of the answer
    /// against the block's commitments, each in its order.
    pub proofs_verified: bool,
}

/// Whether the engine's answer holds every blob.
pub open spec fn all_present(entries: Seq<Option<BlobAndProof>>) -> bool {
    forall|i: int| 0 <= i < entries.len() ==> (#[trigger] entries[i]) is Some
}

/// The verdict of the data availability gate on a report: the blobs are
/// unavailable where the engine gave no answer or left an entry out; they
/// are invalid where there is not one for each commitment or the batch
/// check refused them.
pub open spec fn availability(
    blob_kzg_commitments: Seq<KzgCommitment>,
    report: BlobReport,
) -> Result<(), ForkChoiceError> {
    match report.blobs_and_proofs {
        None => Err(ForkChoiceError::BlobsUnavailable),
        Some(entries) => if !all_present(entries@) {
            Err(ForkChoiceError::BlobsUnavailable)
        } else if entries@.len() != blob_kzg_commitments.len() || !report.proofs_verified {
            Err(ForkChoiceError::BlobProofInvalid)
        } else {
            Ok(())
        },
    }
}

/// Splits the engine's answer into the blobs and the proofs that go to the
/// batch check, each in the order of the answer.
pub fn collect_blobs_and_proofs(entries: &Vec<Option<BlobAndProof>>) -> (batch: Result<
    (Vec<Vec<u8>>, Vec<KzgProof>),
    ForkChoiceError,
>)
    ensures
        match batch {
            Ok((blobs, proofs)) => {
                &&& all_present(entries@)
                &&& blobs@.len() == entries@.len()
                &&& proofs@.len() == entries@.len()
                &&& forall|i: int|
                    0 <= i < entries@.len() ==> (#[trigger] blobs@[i])@ == entries@[i].unwrap().blob@
                &&& forall|i: int|
                    0 <= i < entries@.len() ==> #[trigger] proofs@[i] == entries@[i].unwrap().proof
            },
            Err(e) => e == ForkChoiceError::BlobsUnavailable && !all_present(entries@),
        },
{
    let mut blobs: Vec<Vec<u8>> = Vec::new();
    let mut proofs: Vec<KzgProof> = Vec::new();
    let mut i: usize = 0;
    while i < entries.len()
        invariant
            i <= entries@.len(),
            blobs@.len() == i,
            proofs@.len() == i,
            forall|j: int| 0 <= j < i ==> (#[trigger] entries@[j]) is Some,
            forall|j: int| 0 <= j < i ==> (#[trigger] blobs@[j])@ == entries@[j].unwrap().blob@,
            forall|j: int| 0 <= j < i ==> #[trigger] proofs@[j] == entries@[j].unwrap().proof,
        decreases entries@.len() - i,
    {
        match &entries[i] {
            Some(blob_and_proof) => {
                blobs.push(copy_of(&blob_and_proof.blob));
                proofs.push(blob_and_proof.proof);
            },
            None => {
                assert(!(entries@[i as int] is Some));
                return Err(ForkChoiceError::BlobsUnavailable);
            },
        }
        i += 1;
    }
    Ok((blobs, proofs))
}

/// Whether every entry of the engine's answer holds a blob.
pub fn every_blob_present(entries: &Vec<Option<BlobAndProof>>) -> (present: bool)
    ensures
        present == all_present(entries@),
{
    let mut i: usize = 0;
    while i < entries.len()
        invariant
            i <= entries@.len(),
            forall|j: int| 0 <= j < i ==> (#[trigger] entries@[j]) is Some,
        decreases entries@.len() - i,
    {
        if entries[i].is_none() {
            assert(!(entries@[i as int] is Some));
            return false;
        }
        i += 1;
    }
    true
}

/// The data availability gate on a block at hand: decides from what the
/// engine and the batch check reported.
pub fn check_availability(blob_kzg_commitments: &Vec<KzgCommitment>, report: &BlobReport) -> (verdict:
    Result<(), ForkChoiceError>)
    ensures
        verdict == availability(blob_kzg_commitments@, *report),
{
    match &report.blobs_and_proofs {
        None => Err(ForkChoiceError::BlobsUnavailable),
        Some(entries) => {
            if !every_blob_present(entries) {
                Err(ForkChoiceError::BlobsUnavailable)
            } else if entries.len() != blob_kzg_commitments.len() || !report.proofs_verified {
                Err(ForkChoiceError::BlobProofInvalid)
            } else {
                Ok(())
            }
        },
    }
}

/// The versioned hashes to ask the execution engine for, for the block that
/// the store holds under `beacon_block_root`.
pub fn requested_blob_hashes(beacon_block_root: Root, store: &Store) -> (hashes: Result<
    Vec<Root>,
    ForkChoiceError,
>)
    ensures
        match hashes {
            Ok(list) => store@.blocks.contains_key(beacon_block_root) && list@
                == store@.blocks[beacon_block_root].body.blob_versioned_hashes,
            Err(e) => e == ForkChoiceError::UnknownBlock && !store@.blocks.contains_key(
                beacon_block_root,
            ),
        },
{
    match store.blocks.get(&beacon_block_root) {
        Some(block) => Ok(copy_of(&block.body.blob_versioned_hashes)),
        None => Err(ForkChoiceError::UnknownBlock),
    }
}

/// The data availability gate on a block of the store: `UnknownBlock` where
/// the store holds none under the root, else the verdict on the report.
pub fn is_data_available(
    beacon_block_root: Root,
    store: &Store,
    blob_kzg_commitments: &Vec<KzgCommitment>,
    report: &BlobReport,
) -> (available: Result<bool, ForkChoiceError>)
    ensures
        available == if !store@.blocks.contains_key(beacon_block_root) {
            Err::<bool, ForkChoiceError>(ForkChoiceError::UnknownBlock)
        } else {
            match availability(blob_kzg_commitments@, *report) {
                Ok(_) => Ok(true),
                Err(e) => Err(e),
            }
        },
{
    if !store.blocks.contains_key(&beacon_block_root) {
        return Err(ForkChoiceError::UnknownBlock);
    }
    match check_availability(blob_kzg_commitments, report) {
        Ok(_) => Ok(true),
        Err(e) => Err(e),
    }
}

} // verus!
