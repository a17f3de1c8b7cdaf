use vstd::prelude::*;

verus! {

/// The envelope of an answer of the debug endpoints.
#[derive(Debug)]
pub struct DebugResponse<T> {
    pub data: T,
}

} // verus!
