//! Row identifiers of the extended data square and their fixed binary layout.

use crate::Error;
use vstd::bytes::{
    lemma_auto_spec_u16_to_from_le_bytes, lemma_auto_spec_u64_to_from_le_bytes,
    spec_u16_from_le_bytes, spec_u16_to_le_bytes, spec_u64_from_le_bytes, spec_u64_to_le_bytes,
    u16_from_le_bytes, u16_to_le_bytes, u64_from_le_bytes, u64_to_le_bytes,
};
use vstd::prelude::*;
use vstd::slice::slice_subrange;

verus! {

/// Number of bytes in the fixed binary encoding of a [`RowId`]:
/// an 8-byte block height followed by a 2-byte row index.
pub const ROW_ID_SIZE: usize = 10;

/// Identifies one row of the extended data square of one block.
#[derive(Debug, Clone, Copy, PartialEq, Eq)]
pub struct RowId {
    /// Index of the row within the square.
    pub index: u16,
    /// Height of the block the square belongs to; never zero.
    pub block_height: u64,
}

impl RowId {
    /// A row identifier is well formed exactly when its block height is
    /// positive; height zero is rejected at every construction site.
    pub open spec fn is_valid(self) -> bool {
        self.block_height >= 1
    }

    /// The fixed 10-byte layout: block height as little-endian `u64`,
    /// then row index as little-endian `u16`.
    pub open spec fn spec_encode(self) -> Seq<u8> {
        spec_u64_to_le_bytes(self.block_height) + spec_u16_to_le_bytes(self.index)
    }

    /// Creates a row identifier, rejecting block height zero.
    pub fn new(index: u16, block_height: u64) -> (r: Result<RowId, Error>)
        ensures
            block_height == 0 ==> r == Err::<RowId, Error>(Error::ZeroBlockHeight),
            block_height != 0 ==> r == Ok::<RowId, Error>(RowId { index, block_height }),
            r is Ok <==> block_height != 0,
            r is Ok ==> r.unwrap().is_valid(),
    {
        if block_height == 0 {
            return Err(Error::ZeroBlockHeight);
        }
        Ok(RowId { index, block_height })
    }

    /// Number of bytes needed to represent a [`RowId`].
    pub fn size() -> (r: usize)
        ensures
            r == ROW_ID_SIZE,
    {
        ROW_ID_SIZE
    }

    /// Writes the fixed 10-byte encoding of this identifier.
    pub fn encode(&self) -> (r: Vec<u8>)
        ensures
            r@ == self.spec_encode(),
            r@.len() == ROW_ID_SIZE,
    {
        proof {
            lemma_auto_spec_u64_to_from_le_bytes();
            lemma_auto_spec_u16_to_from_le_bytes();
        }
        let mut buf = u64_to_le_bytes(self.block_height);
        let mut tail = u16_to_le_bytes(self.index);
        buf.append(&mut tail);
        buf
    }

    /// Reads an identifier back from its fixed 10-byte encoding.
    ///
    /// Rejects buffers of any other length, and a decoded height of zero,
    /// keeping the well-formedness invariant of the type.
    pub fn decode(buffer: &[u8]) -> (r: Result<RowId, Error>)
        ensures
            buffer@.len() != ROW_ID_SIZE ==> r == Err::<RowId, Error>(
                Error::InvalidLength(buffer@.len() as usize),
            ),
            buffer@.len() == ROW_ID_SIZE ==> {
                let height = spec_u64_from_le_bytes(buffer@.subrange(0, 8));
                let index = spec_u16_from_le_bytes(buffer@.subrange(8, 10));
                if height == 0 {
                    r == Err::<RowId, Error>(Error::ZeroBlockHeight)
                } else {
                    r == Ok::<RowId, Error>(RowId { index, block_height: height })
                }
            },
            r is Ok ==> r.unwrap().is_valid(),
    {
        if buffer.len() != ROW_ID_SIZE {
            return Err(Error::InvalidLength(buffer.len()));
        }
        let block_height = u64_from_le_bytes(slice_subrange(buffer, 0, 8));
        if block_height == 0 {
            return Err(Error::ZeroBlockHeight);
        }
        let index = u16_from_le_bytes(slice_subrange(buffer, 8, 10));
        Ok(RowId { index, block_height })
    }
}

/// Decoding the 10-byte encoding of any row identifier recovers the
/// identifier: the height bytes read back as the height and the index
/// bytes read back as the index.
pub proof fn lemma_row_id_round_trip(id: RowId)
    ensures
        id.spec_encode().len() == ROW_ID_SIZE,
        spec_u64_from_le_bytes(id.spec_encode().subrange(0, 8)) == id.block_height,
        spec_u16_from_le_bytes(id.spec_encode().subrange(8, 10)) == id.index,
{
    lemma_auto_spec_u64_to_from_le_bytes();
    lemma_auto_spec_u16_to_from_le_bytes();
    let b = id.spec_encode();
    assert(b.subrange(0, 8) =~= spec_u64_to_le_bytes(id.block_height));
    assert(b.subrange(8, 10) =~= spec_u16_to_le_bytes(id.index));
}

} // verus!
