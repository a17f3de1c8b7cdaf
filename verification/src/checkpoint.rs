use vstd::prelude::*;
use vstd::std_specs::cmp::PartialEqSpecImpl;
use crate::primitives::Root;

verus! {

/// An epoch together with the root of the block that opens it in some chain.
#[derive(Clone, Copy, Debug, Eq, Hash)]
pub struct Checkpoint {
    pub epoch: u64,
    pub root: Root,
}

impl PartialEq for Checkpoint {
    fn eq(&self, other: &Checkpoint) -> (equal: bool) {
        self.epoch == other.epoch && self.root == other.root
    }
}

impl PartialEqSpecImpl for Checkpoint {
    open spec fn obeys_eq_spec() -> bool {
        true
    }

    open spec fn eq_spec(&self, other: &Checkpoint) -> bool {
        *self == *other
    }
}

/// The monotone upgrade rule: `candidate` replaces `current` only when its
/// epoch is strictly higher; at equal epochs the root in place stays.
pub open spec fn upgraded(current: Checkpoint, candidate: Checkpoint) -> Checkpoint {
    if candidate.epoch > current.epoch {
        candidate
    } else {
        current
    }
}

} // verus!
