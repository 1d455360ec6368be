//! Content-addressed identifiers for row-namespace data of a verifiable
//! data-availability square, together with the validation protocol that
//! authenticates a set of data shares against a header commitment.
//!
//! The crate packs a `(block height, row index, namespace)` triple into a
//! fixed 39-byte buffer, wraps that buffer into a self-describing content
//! identifier under two reserved tag values, and checks received envelopes
//! of shares before delegating the cryptographic namespace proof to an
//! injected capability.

use vstd::prelude::*;

pub mod content_id;
pub mod dah;
pub mod namespaced_data;
pub mod nmt;
pub mod row;

pub use crate::dah::DataAvailabilityHeader;
pub use crate::namespaced_data::{
    map_proof_outcome, NamespacedData, NamespacedDataId, RawNamespacedData,
    NAMESPACED_DATA_ID_CODEC, NAMESPACED_DATA_ID_MULTIHASH_CODE, NAMESPACED_DATA_ID_SIZE,
};
pub use crate::nmt::{Namespace, NamespaceProof, RawProof, NS_SIZE};
pub use crate::row::{RowId, ROW_ID_SIZE};

verus! {

/// Error raised by a namespace-proof capability, carried through unchanged.
#[derive(Debug, Clone, PartialEq, Eq)]
pub struct ProofError(pub String);

/// Every failure a caller of this crate can observe.
///
/// All of them are recoverable results: no operation of this crate panics
/// on adversarial input.
#[derive(Debug, Clone, PartialEq, Eq)]
pub enum Error {
    /// An identifier was constructed or decoded with block height zero.
    ZeroBlockHeight,
    /// A buffer or digest whose length does not match the fixed width;
    /// carries the observed length.
    InvalidLength(usize),
    /// A content identifier carrying a foreign codec tag; carries the
    /// observed codec.
    InvalidCodec(u64),
    /// A multihash code other than the reserved one; carries the observed
    /// and the expected code, in that order.
    InvalidHashCode(u64, u64),
    /// Raw namespace bytes of the wrong width; carries the observed length.
    InvalidNamespaceSize(usize),
    /// A wire message without the mandatory proof field.
    MissingProof,
    /// The raw proof message could not be converted into the capability type.
    InvalidProof(ProofError),
    /// Validation was attempted on an envelope with no shares.
    EmptyProofTarget,
    /// The identifier's row lies outside the header's commitment table;
    /// carries the row index.
    RowIndexOutOfRange(u16),
    /// The namespace proof failed cryptographic verification.
    ProofVerificationFailed(ProofError),
}

} // verus!
