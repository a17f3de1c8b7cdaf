use vstd::prelude::*;
use crate::beacon_block::{copy_of, BeaconBlock, BeaconBlockView, BlobAndProof};
use crate::beacon_state::BeaconState;
use crate::data_availability::{
    all_present, collect_blobs_and_proofs, every_blob_present, BlobReport,
};
use crate::fork_choice::{
    admission, admit_block, verdict, BlockReport, ForkChoiceError, PulledUpTip,
};
use crate::primitives::{KzgProof, Root};
use crate::store::{Store, StoreView};

verus! {

/// What the node's collaborators have reported so far about one candidate
/// block. Each part is `None` until its work was done; then it holds what
/// the work gave, which may be a failure.
#[derive(Debug)]
pub struct Progress {
    /// The execution engine's answer for the block's blob hashes, or
    /// `None` where it gave none in time.
    pub blobs_and_proofs: Option<Option<Vec<Option<BlobAndProof>>>>,
    /// Whether the batch check accepted the blobs and proofs of that
    /// answer against the block's commitments.
    pub proofs_verified: Option<bool>,
    /// The parent's state taken through the block by the state
    /// transition, or `None` where the transition rejected the block.
    pub post_state: Option<Option<BeaconState>>,
    /// What pulling up justification and finalization on a copy of the
    /// post-state gave, or `None` where that step failed.
    pub pulled_up: Option<Option<PulledUpTip>>,
}

/// What is to be done next for a candidate block.
#[derive(Debug)]
pub enum Action {
    /// Ask the execution engine for the blobs of these versioned hashes.
    GetBlobs(Vec<Root>),
    /// Have the batch check run on these blobs and proofs, against the
    /// commitments of the block.
    VerifyBlobs(Vec<Vec<u8>>, Vec<KzgProof>),
    /// Take a copy of the state of the block under this root, the parent,
    /// through the candidate.
    StateTransition(Root),
    /// Pull justification and finalization up on a copy of the post-state.
    PullUp,
    /// Everything is reported and nothing stands against the block: hand
    /// the reports to `on_block`.
    Register,
    /// The block is refused for this reason, whatever the work not yet
    /// done would give.
    Reject(ForkChoiceError),
}

/// An action with its lists as sequences.
pub enum ActionView {
    GetBlobs(Seq<Root>),
    VerifyBlobs(Seq<Seq<u8>>, Seq<KzgProof>),
    StateTransition(Root),
    PullUp,
    Register,
    Reject(ForkChoiceError),
}

impl View for Action {
    type V = ActionView;

    open spec fn view(&self) -> ActionView {
        match *self {
            Action::GetBlobs(hashes) => ActionView::GetBlobs(hashes@),
            Action::VerifyBlobs(blobs, proofs) => ActionView::VerifyBlobs(
                Seq::new(blobs@.len(), |i: int| blobs@[i]@),
                proofs@,
            ),
            Action::StateTransition(parent_root) => ActionView::StateTransition(parent_root),
            Action::PullUp => ActionView::PullUp,
            Action::Register => ActionView::Register,
            Action::Reject(reason) => ActionView::Reject(reason),
        }
    }
}

/// The blobs of an answer that holds every blob, in its order.
pub open spec fn blobs_of(entries: Seq<Option<BlobAndProof>>) -> Seq<Seq<u8>> {
    Seq::new(entries.len(), |i: int| entries[i].unwrap().blob@)
}

/// The proofs of an answer that holds every blob, in its order.
pub open spec fn proofs_of(entries: Seq<Option<BlobAndProof>>) -> Seq<KzgProof> {
    Seq::new(entries.len(), |i: int| entries[i].unwrap().proof)
}

/// What is to be done next for a block, given what is reported so far: the
/// store's own conditions come first, then the blobs are asked for and
/// checked, then the state transition is run, then the pull-up. The first
/// failure refuses the block, and no work is asked for after it.
pub open spec fn next(store: StoreView, block: BeaconBlockView, progress: Progress) -> ActionView {
    if admission(store, block) is Err {
        ActionView::Reject(admission(store, block)->Err_0)
    } else {
        match progress.blobs_and_proofs {
            None => ActionView::GetBlobs(block.body.blob_versioned_hashes),
            Some(None) => ActionView::Reject(ForkChoiceError::BlobsUnavailable),
            Some(Some(entries)) => if !all_present(entries@) {
                ActionView::Reject(ForkChoiceError::BlobsUnavailable)
            } else if entries@.len() != block.body.blob_kzg_commitments.len() {
                ActionView::Reject(ForkChoiceError::BlobProofInvalid)
            } else {
                match progress.proofs_verified {
                    None => ActionView::VerifyBlobs(blobs_of(entries@), proofs_of(entries@)),
                    Some(false) => ActionView::Reject(ForkChoiceError::BlobProofInvalid),
                    Some(true) => match progress.post_state {
                        None => ActionView::StateTransition(block.parent_root),
                        Some(None) => ActionView::Reject(ForkChoiceError::TransitionError),
                        Some(Some(_)) => match progress.pulled_up {
                            None => ActionView::PullUp,
                            Some(None) => ActionView::Reject(ForkChoiceError::TransitionError),
                            Some(Some(_)) => ActionView::Register,
                        },
                    },
                }
            },
        }
    }
}

/// Whether a report says of every piece of work that is done what the
/// progress says of it.
pub open spec fn completes(report: BlockReport, progress: Progress) -> bool {
    &&& progress.blobs_and_proofs is Some ==> report.blobs.blobs_and_proofs
        == progress.blobs_and_proofs.unwrap()
    &&& progress.proofs_verified is Some ==> report.blobs.proofs_verified
        == progress.proofs_verified.unwrap()
    &&& progress.post_state is Some ==> report.post_state == progress.post_state.unwrap()
    &&& progress.pulled_up is Some ==> report.pulled_up == progress.pulled_up.unwrap()
}

/// A block that is refused on the way is refused for the same reason once
/// all is reported, and a block that is ready to be registered is taken in.
pub proof fn lemma_next_agrees_with_verdict(
    store: StoreView,
    block: BeaconBlockView,
    progress: Progress,
    report: BlockReport,
)
    requires
        completes(report, progress),
    ensures
        next(store, block, progress) matches ActionView::Reject(reason) ==> verdict(
            store,
            block,
            report,
        ) == Err::<(), ForkChoiceError>(reason),
        next(store, block, progress) is Register ==> verdict(store, block, report) is Ok,
{
}

impl Progress {
    /// Nothing is reported yet.
    pub fn new() -> (progress: Progress)
        ensures
            progress.blobs_and_proofs is None,
            progress.proofs_verified is None,
            progress.post_state is None,
            progress.pulled_up is None,
    {
        Progress { blobs_and_proofs: None, proofs_verified: None, post_state: None, pulled_up: None }
    }

    /// The report to hand to `on_block`, once every piece of work is done.
    pub fn report(self) -> (report: Option<BlockReport>)
        ensures
            match report {
                Some(report) => {
                    &&& completes(report, self)
                    &&& self.blobs_and_proofs is Some
                    &&& self.proofs_verified is Some
                    &&& self.post_state is Some
                    &&& self.pulled_up is Some
                },
                None => self.blobs_and_proofs is None || self.proofs_verified is None
                    || self.post_state is None || self.pulled_up is None,
            },
    {
        match (self.blobs_and_proofs, self.proofs_verified, self.post_state, self.pulled_up) {
            (Some(blobs_and_proofs), Some(proofs_verified), Some(post_state), Some(pulled_up)) => {
                Some(
                    BlockReport {
                        blobs: BlobReport { blobs_and_proofs, proofs_verified },
                        post_state,
                        pulled_up,
                    },
                )
            },
            _ => None,
        }
    }
}

/// Says what is to be done next for a candidate block, given what the
/// collaborators have reported so far.
pub fn next_action(store: &Store, block: &BeaconBlock, progress: &Progress) -> (action: Action)
    requires
        store.genesis_time <= store.time,
    ensures
        action@ == next(store@, block@, *progress),
{
    match admit_block(store, block) {
        Err(reason) => {
            return Action::Reject(reason);
        },
        Ok(_) => {},
    }
    let entries = match &progress.blobs_and_proofs {
        None => {
            return Action::GetBlobs(copy_of(&block.body.blob_versioned_hashes));
        },
        Some(None) => {
            return Action::Reject(ForkChoiceError::BlobsUnavailable);
        },
        Some(Some(entries)) => entries,
    };
    if !every_blob_present(entries) {
        return Action::Reject(ForkChoiceError::BlobsUnavailable);
    }
    if entries.len() != block.body.blob_kzg_commitments.len() {
        return Action::Reject(ForkChoiceError::BlobProofInvalid);
    }
    match progress.proofs_verified {
        None => {
            return match collect_blobs_and_proofs(entries) {
                Ok((blobs, proofs)) => {
                    proof {
                        assert(Seq::new(blobs@.len(), |i: int| blobs@[i]@) =~= blobs_of(entries@));
                        assert(proofs@ =~= proofs_of(entries@));
                    }
                    Action::VerifyBlobs(blobs, proofs)
                },
                Err(reason) => Action::Reject(reason),
            };
        },
        Some(false) => {
            return Action::Reject(ForkChoiceError::BlobProofInvalid);
        },
        Some(true) => {},
    }
    match &progress.post_state {
        None => {
            return Action::StateTransition(block.parent_root);
        },
        Some(None) => {
            return Action::Reject(ForkChoiceError::TransitionError);
        },
        Some(Some(_)) => {},
    }
    match &progress.pulled_up {
        None => Action::PullUp,
        Some(None) => Action::Reject(ForkChoiceError::TransitionError),
        Some(Some(_)) => Action::Register,
    }
}

} // verus!
