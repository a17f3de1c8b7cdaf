use vstd::prelude::*;
use vstd::std_specs::cmp::PartialEqSpecImpl;

verus! {

/// Whether two byte arrays of one length hold the same bytes.
pub fn bytes_equal<const N: usize>(a: &[u8; N], b: &[u8; N]) -> (equal: bool)
    ensures
        equal == (a@ == b@),
        equal == (*a == *b),
{
    let mut i: usize = 0;
    while i < N
        invariant
            i <= N,
            a@.len() == N,
            b@.len() == N,
            forall|j: int| 0 <= j < i ==> a@[j] == b@[j],
        decreases N - i,
    {
        if a[i] != b[i] {
            return false;
        }
        i += 1;
    }
    proof {
        assert(a@ =~= b@);
        assert(*a =~= *b);
    }
    true
}

/// A 32-byte Merkle root: the name of a block or of a state.
#[derive(Clone, Copy, Debug, Eq, Hash)]
pub struct Root {
    pub bytes: [u8; 32],
}

impl View for Root {
    type V = Seq<u8>;

    open spec fn view(&self) -> Seq<u8> {
        self.bytes@
    }
}

impl Root {
    /// The root made of 32 zero bytes, which names no block.
    pub fn zero() -> (root: Root)
        ensures
            root@ == Seq::new(32, |i: int| 0u8),
    {
        let root = Root { bytes: [0u8; 32] };
        assert(root@ =~= Seq::new(32, |i: int| 0u8));
        root
    }

    /// Two roots with the same bytes are the same root.
    pub proof fn lemma_view_injective(a: Root, b: Root)
        requires
            a@ == b@,
        ensures
            a == b,
    {
        assert(a.bytes =~= b.bytes);
    }
}

impl PartialEq for Root {
    fn eq(&self, other: &Root) -> (equal: bool) {
        bytes_equal(&self.bytes, &other.bytes)
    }
}

impl PartialEqSpecImpl for Root {
    open spec fn obeys_eq_spec() -> bool {
        true
    }

    open spec fn eq_spec(&self, other: &Root) -> bool {
        *self == *other
    }
}

/// A BLS public key in its 48-byte compressed form.
#[derive(Clone, Copy, Debug, Eq, Hash)]
pub struct PubKey {
    pub bytes: [u8; 48],
}

impl View for PubKey {
    type V = Seq<u8>;

    open spec fn view(&self) -> Seq<u8> {
        self.bytes@
    }
}

impl PartialEq for PubKey {
    fn eq(&self, other: &PubKey) -> (equal: bool) {
        bytes_equal(&self.bytes, &other.bytes)
    }
}

impl PartialEqSpecImpl for PubKey {
    open spec fn obeys_eq_spec() -> bool {
        true
    }

    open spec fn eq_spec(&self, other: &PubKey) -> bool {
        *self == *other
    }
}

/// A 20-byte execution-layer address.
#[derive(Clone, Copy, Debug)]
pub struct Address {
    pub bytes: [u8; 20],
}

/// A BLS signature in its 96-byte compressed form.
#[derive(Clone, Copy, Debug)]
pub struct BlsSignature {
    pub bytes: [u8; 96],
}

/// A 48-byte KZG commitment to a blob.
#[derive(Clone, Copy, Debug)]
pub struct KzgCommitment {
    pub bytes: [u8; 48],
}

/// A 48-byte KZG proof that a blob matches its commitment.
#[derive(Clone, Copy, Debug)]
pub struct KzgProof {
    pub bytes: [u8; 48],
}

} // verus!
