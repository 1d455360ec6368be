//! The header-supplied commitment table that envelopes are validated against.

use vstd::prelude::*;
use vstd::slice::slice_to_vec;

verus! {

/// The data-availability header's view of one block: the root commitment
/// of every row of the extended data square, in row order.
///
/// The crate only reads this table; it never builds or mutates one.
#[derive(Debug, Clone, PartialEq, Eq)]
pub struct DataAvailabilityHeader {
    /// Root commitment of each row, indexed by row.
    pub row_roots: Vec<Vec<u8>>,
}

impl DataAvailabilityHeader {
    /// The root commitment for row `index`, or `None` when the index lies
    /// outside the declared range of this header.
    pub fn row_root(&self, index: u16) -> (r: Option<Vec<u8>>)
        ensures
            (index as int) < self.row_roots@.len() ==> r is Some && r.unwrap()@
                == self.row_roots@[index as int]@,
            (index as int) >= self.row_roots@.len() ==> r is None,
    {
        if (index as usize) < self.row_roots.len() {
            Some(slice_to_vec(self.row_roots[index as usize].as_slice()))
        } else {
            None
        }
    }
}

} // verus!
