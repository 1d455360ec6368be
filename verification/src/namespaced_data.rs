//! Identifiers for the shares of one namespace on one row of the extended
//! data square, their content-identifier wrapping, and the envelope that
//! carries such shares with their inclusion proof.

use crate::content_id::{
    cid_codec, cid_mh_code, cid_mh_digest, cid_new_v1, get_codec, get_hash, multihash_code,
    multihash_digest, wrap_multihash,
};
use crate::dah::DataAvailabilityHeader;
use crate::nmt::{Namespace, NamespaceProof, NS_SIZE};
use crate::row::{lemma_row_id_round_trip, RowId, ROW_ID_SIZE};
use crate::{Error, ProofError};
use cid::CidGeneric;
use vstd::bytes::{spec_u16_from_le_bytes, spec_u64_from_le_bytes};
use vstd::prelude::*;
use vstd::slice::{slice_subrange, slice_to_vec};

verus! {

/// Number of bytes in the encoding of a [`NamespacedDataId`]: the row
/// identifier followed by the raw namespace bytes.
pub const NAMESPACED_DATA_ID_SIZE: usize = ROW_ID_SIZE + NS_SIZE;

/// The reserved multihash code marking a digest as the raw identifier
/// encoding rather than a cryptographic hash output.
pub const NAMESPACED_DATA_ID_MULTIHASH_CODE: u64 = 0x7821;

/// The reserved codec tag marking a content identifier as a
/// [`NamespacedDataId`].
pub const NAMESPACED_DATA_ID_CODEC: u64 = 0x7820;

/// The block height encoded in the first 8 bytes of an identifier buffer.
pub open spec fn decoded_height(b: Seq<u8>) -> u64 {
    spec_u64_from_le_bytes(b.subrange(0, 8))
}

/// The row index encoded in bytes 8 and 9 of an identifier buffer.
pub open spec fn decoded_index(b: Seq<u8>) -> u16 {
    spec_u16_from_le_bytes(b.subrange(8, 10))
}

/// The namespace bytes at the tail of an identifier buffer.
pub open spec fn decoded_namespace(b: Seq<u8>) -> Seq<u8> {
    b.subrange(ROW_ID_SIZE as int, NAMESPACED_DATA_ID_SIZE as int)
}

/// Identifies the shares of one [`Namespace`] on one row of the extended
/// data square of one block.
#[derive(Debug, Clone, PartialEq, Eq)]
pub struct NamespacedDataId {
    /// The row the shares lie on.
    pub row: RowId,
    /// The namespace of the shares.
    pub namespace: Namespace,
}

/// Does `id` hold exactly the height, index and namespace that the
/// identifier buffer `b` encodes?
pub open spec fn id_matches_bytes(id: NamespacedDataId, b: Seq<u8>) -> bool {
    &&& id.row.block_height == decoded_height(b)
    &&& id.row.index == decoded_index(b)
    &&& id.namespace@ == decoded_namespace(b)
}

impl NamespacedDataId {
    /// Well-formedness: a positive block height and a namespace of the
    /// fixed width.
    pub open spec fn is_valid(self) -> bool {
        self.row.is_valid() && self.namespace.is_valid()
    }

    /// The fixed 39-byte layout: the 10-byte row encoding, then the raw
    /// namespace bytes.
    pub open spec fn spec_encode(self) -> Seq<u8> {
        self.row.spec_encode() + self.namespace@
    }

    /// Creates an identifier for the given block, row and namespace,
    /// rejecting block height zero.
    pub fn new(namespace: Namespace, row_index: u16, block_height: u64) -> (r: Result<
        NamespacedDataId,
        Error,
    >)
        requires
            namespace.is_valid(),
        ensures
            block_height == 0 ==> r == Err::<NamespacedDataId, Error>(Error::ZeroBlockHeight),
            block_height != 0 ==> r is Ok && r.unwrap().row == (RowId {
                index: row_index,
                block_height,
            }) && r.unwrap().namespace == namespace,
            r is Ok <==> block_height != 0,
            r is Ok ==> r.unwrap().is_valid(),
    {
        if block_height == 0 {
            return Err(Error::ZeroBlockHeight);
        }
        match RowId::new(row_index, block_height) {
            Ok(row) => Ok(NamespacedDataId { row, namespace }),
            Err(e) => Err(e),
        }
    }

    /// Number of bytes needed to represent a [`NamespacedDataId`].
    pub fn size() -> (r: usize)
        ensures
            r == NAMESPACED_DATA_ID_SIZE,
    {
        NAMESPACED_DATA_ID_SIZE
    }

    /// Writes the fixed 39-byte encoding of this identifier.
    pub fn encode(&self) -> (r: Vec<u8>)
        requires
            self.is_valid(),
        ensures
            r@ == self.spec_encode(),
            r@.len() == NAMESPACED_DATA_ID_SIZE,
    {
        let mut buf = self.row.encode();
        let mut tail = slice_to_vec(self.namespace.as_bytes());
        buf.append(&mut tail);
        buf
    }

    /// Reads an identifier back from its fixed 39-byte encoding,
    /// all-or-nothing: a buffer of any other length, or one encoding
    /// height zero, leaves nothing behind but the error.
    pub fn decode(buffer: &[u8]) -> (r: Result<NamespacedDataId, Error>)
        ensures
            buffer@.len() != NAMESPACED_DATA_ID_SIZE ==> r == Err::<NamespacedDataId, Error>(
                Error::InvalidLength(buffer@.len() as usize),
            ),
            buffer@.len() == NAMESPACED_DATA_ID_SIZE && decoded_height(buffer@) == 0 ==> r == Err::<
                NamespacedDataId,
                Error,
            >(Error::ZeroBlockHeight),
            buffer@.len() == NAMESPACED_DATA_ID_SIZE && decoded_height(buffer@) != 0 ==> r is Ok
                && id_matches_bytes(r.unwrap(), buffer@) && r.unwrap().is_valid(),
    {
        if buffer.len() != NAMESPACED_DATA_ID_SIZE {
            return Err(Error::InvalidLength(buffer.len()));
        }
        let row_bytes = slice_subrange(buffer, 0, ROW_ID_SIZE);
        proof {
            assert(row_bytes@.subrange(0, 8) =~= buffer@.subrange(0, 8));
            assert(row_bytes@.subrange(8, 10) =~= buffer@.subrange(8, 10));
        }
        let row = match RowId::decode(row_bytes) {
            Ok(row) => row,
            Err(e) => {
                return Err(e);
            },
        };
        let ns_bytes = slice_subrange(buffer, ROW_ID_SIZE, NAMESPACED_DATA_ID_SIZE);
        match Namespace::from_raw(ns_bytes) {
            Ok(namespace) => Ok(NamespacedDataId { row, namespace }),
            Err(e) => Err(e),
        }
    }

    /// Wraps the 39-byte encoding of this identifier into a version-1
    /// content identifier under the two reserved tag values. This cannot
    /// fail: the digest width is known at compile time.
    pub fn to_cid(&self) -> (r: CidGeneric<39>)
        requires
            self.is_valid(),
        ensures
            cid_codec(r) == NAMESPACED_DATA_ID_CODEC,
            cid_mh_code(r) == NAMESPACED_DATA_ID_MULTIHASH_CODE,
            cid_mh_digest(r) == self.spec_encode(),
    {
        let bytes = self.encode();
        let mh = wrap_multihash(NAMESPACED_DATA_ID_MULTIHASH_CODE, bytes.as_slice());
        cid_new_v1(NAMESPACED_DATA_ID_CODEC, mh)
    }

    /// Recovers an identifier from a content identifier, validating in
    /// order: the codec tag, then the digest length, then the multihash
    /// code, then the digest bytes themselves. The order keeps the
    /// diagnostics precise: a foreign codec is never reported as a length
    /// or hash-code problem, and a wrong hash code never masks a wrong
    /// length.
    pub fn from_cid(cid: &CidGeneric<39>) -> (r: Result<NamespacedDataId, Error>)
        ensures
            cid_codec(*cid) != NAMESPACED_DATA_ID_CODEC ==> r == Err::<NamespacedDataId, Error>(
                Error::InvalidCodec(cid_codec(*cid)),
            ),
            cid_codec(*cid) == NAMESPACED_DATA_ID_CODEC && cid_mh_digest(*cid).len()
                != NAMESPACED_DATA_ID_SIZE ==> r == Err::<NamespacedDataId, Error>(
                Error::InvalidLength(cid_mh_digest(*cid).len() as usize),
            ),
            cid_codec(*cid) == NAMESPACED_DATA_ID_CODEC && cid_mh_digest(*cid).len()
                == NAMESPACED_DATA_ID_SIZE && cid_mh_code(*cid)
                != NAMESPACED_DATA_ID_MULTIHASH_CODE ==> r == Err::<NamespacedDataId, Error>(
                Error::InvalidHashCode(cid_mh_code(*cid), NAMESPACED_DATA_ID_MULTIHASH_CODE),
            ),
            cid_codec(*cid) == NAMESPACED_DATA_ID_CODEC && cid_mh_digest(*cid).len()
                == NAMESPACED_DATA_ID_SIZE && cid_mh_code(*cid) == NAMESPACED_DATA_ID_MULTIHASH_CODE
                ==> {
                let digest = cid_mh_digest(*cid);
                &&& decoded_height(digest) == 0 ==> r == Err::<NamespacedDataId, Error>(
                    Error::ZeroBlockHeight,
                )
                &&& decoded_height(digest) != 0 ==> r is Ok && id_matches_bytes(
                    r.unwrap(),
                    digest,
                ) && r.unwrap().is_valid()
            },
    {
        let codec = get_codec(cid);
        if codec != NAMESPACED_DATA_ID_CODEC {
            return Err(Error::InvalidCodec(codec));
        }
        let hash = get_hash(cid);
        let digest = multihash_digest(hash);
        if digest.len() != NAMESPACED_DATA_ID_SIZE {
            return Err(Error::InvalidLength(digest.len()));
        }
        let code = multihash_code(hash);
        if code != NAMESPACED_DATA_ID_MULTIHASH_CODE {
            return Err(Error::InvalidHashCode(code, NAMESPACED_DATA_ID_MULTIHASH_CODE));
        }
        Self::decode(digest.as_slice())
    }
}

/// The flat wire shape of an envelope: an opaque identifier buffer, the
/// share buffers in row order, and the proof message, which a correct
/// sender always includes but a decoder must not assume.
#[derive(Debug, Clone, PartialEq, Eq)]
pub struct RawNamespacedData {
    /// The 39-byte identifier encoding.
    pub data_id: Vec<u8>,
    /// The raw shares, in the left-to-right order of the row's leaves.
    pub data_shares: Vec<Vec<u8>>,
    /// The transported proof message, if present.
    pub data_proof: Option<crate::nmt::RawProof>,
}

/// Up to a row of shares belonging to one namespace, together with the
/// proof of their inclusion. The proof capability `P` is injected; the
/// crate never implements it.
#[derive(Debug, Clone, PartialEq, Eq)]
pub struct NamespacedData<P> {
    /// Location of the shares on the extended data square.
    pub namespaced_data_id: NamespacedDataId,
    /// Proof of data inclusion.
    pub proof: P,
    /// Shares with data, in the left-to-right order of the row's leaves.
    pub shares: Vec<Vec<u8>>,
}

/// Maps the capability's verdict into this crate's result: success stays
/// success, and every capability failure is wrapped, none swallowed.
pub fn map_proof_outcome(outcome: Result<(), ProofError>) -> (r: Result<(), Error>)
    ensures
        outcome is Ok <==> r is Ok,
        outcome is Err ==> r == Err::<(), Error>(
            Error::ProofVerificationFailed(outcome.unwrap_err()),
        ),
{
    match outcome {
        Ok(()) => Ok(()),
        Err(e) => Err(Error::ProofVerificationFailed(e)),
    }
}

/// Copies a share sequence, preserving content and order.
fn clone_shares(shares: &Vec<Vec<u8>>) -> (r: Vec<Vec<u8>>)
    ensures
        r.deep_view() == shares.deep_view(),
{
    let mut out: Vec<Vec<u8>> = Vec::new();
    let mut i: usize = 0;
    while i < shares.len()
        invariant
            i <= shares@.len(),
            out@.len() == i,
            forall|j: int| 0 <= j < i ==> #[trigger] out@[j]@ == shares@[j]@,
        decreases shares@.len() - i,
    {
        out.push(slice_to_vec(shares[i].as_slice()));
        i += 1;
    }
    proof {
        assert(out.deep_view() =~~= shares.deep_view());
    }
    out
}

impl<P: NamespaceProof> NamespacedData<P> {
    /// Decodes the wire message. The proof must be present, the identifier
    /// bytes must decode, and the proof message must convert into the
    /// capability type; the shares are carried over unchanged, in order,
    /// with no width check — width checking belongs to validation.
    pub fn from_raw(raw: RawNamespacedData) -> (r: Result<NamespacedData<P>, Error>)
        ensures
            raw.data_proof is None ==> r == Err::<NamespacedData<P>, Error>(Error::MissingProof),
            raw.data_proof is Some && raw.data_id@.len() != NAMESPACED_DATA_ID_SIZE ==> r == Err::<
                NamespacedData<P>,
                Error,
            >(Error::InvalidLength(raw.data_id@.len() as usize)),
            raw.data_proof is Some && raw.data_id@.len() == NAMESPACED_DATA_ID_SIZE
                && decoded_height(raw.data_id@) == 0 ==> r == Err::<NamespacedData<P>, Error>(
                Error::ZeroBlockHeight,
            ),
            raw.data_proof is Some && raw.data_id@.len() == NAMESPACED_DATA_ID_SIZE
                && decoded_height(raw.data_id@) != 0 ==> {
                &&& r is Ok ==> id_matches_bytes(r.unwrap().namespaced_data_id, raw.data_id@)
                    && r.unwrap().shares.deep_view() == raw.data_shares.deep_view()
                &&& r is Err ==> r matches Err(Error::InvalidProof(_))
            },
    {
        let RawNamespacedData { data_id, data_shares, data_proof } = raw;
        let proof_raw = match data_proof {
            Some(p) => p,
            None => {
                return Err(Error::MissingProof);
            },
        };
        let namespaced_data_id = match NamespacedDataId::decode(data_id.as_slice()) {
            Ok(id) => id,
            Err(e) => {
                return Err(e);
            },
        };
        match P::from_raw(&proof_raw) {
            Ok(proof) => Ok(NamespacedData { namespaced_data_id, proof, shares: data_shares }),
            Err(e) => Err(Error::InvalidProof(e)),
        }
    }

    /// Encodes the envelope into its wire shape: the identifier re-encoded
    /// into its 39 bytes, the shares copied over in order, and the proof
    /// always present. This cannot fail for a well-formed envelope.
    pub fn to_raw(&self) -> (r: RawNamespacedData)
        requires
            self.namespaced_data_id.is_valid(),
        ensures
            r.data_id@ == self.namespaced_data_id.spec_encode(),
            r.data_shares.deep_view() == self.shares.deep_view(),
            r.data_proof is Some,
    {
        RawNamespacedData {
            data_id: self.namespaced_data_id.encode(),
            data_shares: clone_shares(&self.shares),
            data_proof: Some(self.proof.to_raw()),
        }
    }

    /// Authenticates the envelope against a header commitment, in order:
    /// an empty share set fails immediately; a row outside the header's
    /// range fails next; only then is the cryptographic namespace proof
    /// consulted, and any failure of it surfaced wrapped.
    pub fn validate(&self, dah: &DataAvailabilityHeader) -> (r: Result<(), Error>)
        ensures
            self.shares@.len() == 0 ==> r == Err::<(), Error>(Error::EmptyProofTarget),
            self.shares@.len() > 0 && self.namespaced_data_id.row.index as int
                >= dah.row_roots@.len() ==> r == Err::<(), Error>(
                Error::RowIndexOutOfRange(self.namespaced_data_id.row.index),
            ),
            self.shares@.len() > 0 && (self.namespaced_data_id.row.index as int)
                < dah.row_roots@.len() ==> (r is Ok || r matches Err(
                Error::ProofVerificationFailed(_),
            )),
    {
        if self.shares.is_empty() {
            return Err(Error::EmptyProofTarget);
        }
        let index = self.namespaced_data_id.row.index;
        let root = match dah.row_root(index) {
            Some(root) => root,
            None => {
                return Err(Error::RowIndexOutOfRange(index));
            },
        };
        map_proof_outcome(
            self.proof.verify_complete_namespace(
                &root,
                &self.shares,
                &self.namespaced_data_id.namespace,
            ),
        )
    }
}

/// Round trip: the 39-byte encoding of any valid identifier is exactly
/// [`NAMESPACED_DATA_ID_SIZE`] bytes long, and decoding it recovers
/// exactly that identifier's height, index and namespace.
pub proof fn lemma_id_round_trip(id: NamespacedDataId)
    requires
        id.is_valid(),
    ensures
        id.spec_encode().len() == NAMESPACED_DATA_ID_SIZE,
        id_matches_bytes(id, id.spec_encode()),
{
    lemma_row_id_round_trip(id.row);
    let b = id.spec_encode();
    let rb = id.row.spec_encode();
    assert(b.subrange(0, 8) =~= rb.subrange(0, 8));
    assert(b.subrange(8, 10) =~= rb.subrange(8, 10));
    assert(decoded_namespace(b) =~= id.namespace@);
}

} // verus!
