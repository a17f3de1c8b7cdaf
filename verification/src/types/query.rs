use vstd::prelude::*;
use crate::types::id::{same_text, ValidatorID};

verus! {

/// The validators that a request asks for, if it names any.
#[derive(Debug)]
pub struct IdQuery {
    pub id: Option<Vec<ValidatorID>>,
}

/// The statuses that a request asks for, if it names any.
#[derive(Debug)]
pub struct StatusQuery {
    pub status: Option<Vec<String>>,
}

/// Whether `status` is among `statuses`.
pub open spec fn listed_status(statuses: Seq<String>, status: Seq<char>) -> bool {
    exists|i: int| 0 <= i < statuses.len() && (#[trigger] statuses[i])@ == status
}

impl StatusQuery {
    /// Whether the request names at least one status.
    pub open spec fn spec_has_status(&self) -> bool {
        self.status is Some && self.status.unwrap()@.len() > 0
    }

    /// Whether the request names `status`.
    pub open spec fn spec_contains_status(&self, status: Seq<char>) -> bool {
        self.status is Some && listed_status(self.status.unwrap()@, status)
    }

    /// Whether a validator of the given status is left out of the answer:
    /// the request names statuses and this is none of them.
    pub open spec fn excludes(&self, status: Seq<char>) -> bool {
        self.spec_has_status() && !self.spec_contains_status(status)
    }

    pub fn has_status(&self) -> (named: bool)
        ensures
            named == self.spec_has_status(),
    {
        match &self.status {
            Some(statuses) => statuses.len() > 0,
            None => false,
        }
    }

    pub fn contains_status(&self, status: &String) -> (named: bool)
        ensures
            named == self.spec_contains_status(status@),
    {
        match &self.status {
            Some(statuses) => {
                let mut i: usize = 0;
                while i < statuses.len()
                    invariant
                        i <= statuses@.len(),
                        self.status == Some(*statuses),
                        forall|j: int| 0 <= j < i ==> (#[trigger] statuses@[j])@ != status@,
                    decreases statuses@.len() - i,
                {
                    if same_text(statuses[i].as_str(), status.as_str()) {
                        assert(statuses@[i as int]@ == status@);
                        return true;
                    }
                    i += 1;
                }
                false
            },
            None => false,
        }
    }
}

} // verus!
