//! Namespaces of the data square, and the namespace-proof capability that
//! this crate consumes but does not implement.

use crate::{Error, ProofError};
use vstd::prelude::*;
use vstd::slice::slice_to_vec;

verus! {

/// Number of bytes in a raw [`Namespace`]: one version byte and 28 id bytes.
pub const NS_SIZE: usize = 29;

/// Number of user-supplied id bytes a version-zero namespace may carry.
pub const NS_ID_V0_SIZE: usize = 10;

/// A fixed-width byte tag partitioning the rows of the data square.
///
/// The crate treats it as an opaque comparable value of exactly
/// [`NS_SIZE`] bytes.
#[derive(Debug, Clone, PartialEq, Eq)]
pub struct Namespace {
    /// The raw bytes; well formed when exactly [`NS_SIZE`] long.
    pub bytes: Vec<u8>,
}

impl View for Namespace {
    type V = Seq<u8>;

    open spec fn view(&self) -> Seq<u8> {
        self.bytes@
    }
}

impl Namespace {
    /// A namespace is well formed exactly when it holds [`NS_SIZE`] bytes.
    pub open spec fn is_valid(self) -> bool {
        self@.len() == NS_SIZE
    }

    /// Builds a namespace from its raw bytes, rejecting every other width.
    pub fn from_raw(bytes: &[u8]) -> (r: Result<Namespace, Error>)
        ensures
            bytes@.len() == NS_SIZE ==> r is Ok && r.unwrap()@ == bytes@,
            bytes@.len() != NS_SIZE ==> r == Err::<Namespace, Error>(
                Error::InvalidNamespaceSize(bytes@.len() as usize),
            ),
            r is Ok ==> r.unwrap().is_valid(),
    {
        if bytes.len() != NS_SIZE {
            return Err(Error::InvalidNamespaceSize(bytes.len()));
        }
        Ok(Namespace { bytes: slice_to_vec(bytes) })
    }

    /// Builds a version-zero namespace: a zero version byte, zero padding,
    /// and up to [`NS_ID_V0_SIZE`] user bytes right-aligned at the end.
    pub fn new_v0(id: &[u8]) -> (r: Result<Namespace, Error>)
        ensures
            id@.len() > NS_ID_V0_SIZE ==> r == Err::<Namespace, Error>(
                Error::InvalidNamespaceSize(id@.len() as usize),
            ),
            id@.len() <= NS_ID_V0_SIZE ==> r is Ok && {
                let ns = r.unwrap()@;
                &&& ns.len() == NS_SIZE
                &&& forall|i: int| 0 <= i < NS_SIZE - id@.len() ==> ns[i] == 0u8
                &&& ns.subrange(NS_SIZE - id@.len(), NS_SIZE as int) == id@
            },
            r is Ok ==> r.unwrap().is_valid(),
    {
        if id.len() > NS_ID_V0_SIZE {
            return Err(Error::InvalidNamespaceSize(id.len()));
        }
        let pad: usize = NS_SIZE - id.len();
        let mut bytes: Vec<u8> = Vec::new();
        let mut i: usize = 0;
        while i < pad
            invariant
                i <= pad,
                bytes@.len() == i,
                forall|j: int| 0 <= j < i ==> bytes@[j] == 0u8,
            decreases pad - i,
        {
            bytes.push(0u8);
            i += 1;
        }
        let mut tail = slice_to_vec(id);
        bytes.append(&mut tail);
        proof {
            assert(bytes@.subrange(pad as int, NS_SIZE as int) =~= id@);
        }
        Ok(Namespace { bytes })
    }

    /// The raw bytes of this namespace.
    pub fn as_bytes(&self) -> (r: &[u8])
        ensures
            r@ == self@,
    {
        self.bytes.as_slice()
    }
}

/// The raw wire shape of a namespace-inclusion proof: the fields of the
/// transported proof message, carried as plain values and not interpreted
/// by this crate.
#[derive(Debug, Clone, PartialEq, Eq)]
pub struct RawProof {
    /// Index of the first leaf matching the queried namespace.
    pub start: i64,
    /// Index one past the last matching leaf.
    pub end: i64,
    /// Tree nodes of the Merkle range proof.
    pub nodes: Vec<Vec<u8>>,
    /// Leaf hash needed for an absence proof; empty for an inclusion proof.
    pub leaf_hash: Vec<u8>,
    /// Whether the maximal namespace is ignored when ranging inner nodes.
    pub is_max_namespace_ignored: bool,
}

/// The namespace-proof capability this crate consumes.
///
/// An implementation proves that a share sequence is exactly the complete,
/// contiguous set of leaves under a namespace within the tree committed to
/// by a row root. The crate states nothing about the verdicts of an
/// implementation; its own contracts hold whatever an implementation
/// answers.
pub trait NamespaceProof: Sized {
    /// Converts the transported proof message into the capability type.
    fn from_raw(raw: &RawProof) -> Result<Self, ProofError>;

    /// Converts the capability value back into its transported message.
    fn to_raw(&self) -> RawProof;

    /// Proves that `shares` is exactly the complete set of leaves under
    /// `namespace` within the tree committed to by `root`.
    fn verify_complete_namespace(
        &self,
        root: &Vec<u8>,
        shares: &Vec<Vec<u8>>,
        namespace: &Namespace,
    ) -> Result<(), ProofError>;
}

} // verus!
