use vstd::prelude::*;

verus! {

/// The version of the node as the API shows it.
#[derive(Debug)]
pub struct Version {
    pub version: String,
}

impl Version {
    pub fn new(version: String) -> (shown: Version)
        ensures
            shown.version == version,
    {
        Version { version }
    }
}

impl Default for Version {
    fn default() -> (shown: Version)
        ensures
            shown.version@ == Seq::<char>::empty(),
    {
        Version { version: String::new() }
    }
}

} // verus!
