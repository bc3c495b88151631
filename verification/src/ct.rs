//! Constant-time byte comparison, supplied by an outside collaborator.

use vstd::prelude::*;

verus! {

/// Relies on consistenttime::ct_u8_slice_eq: returns false when the slices
/// have different lengths, and otherwise true exactly when every byte is
/// equal, walking both slices in full so that the timing does not depend on
/// where the first difference lies.
#[verifier::external_body]
pub(crate) fn ct_slice_eq(x: &[u8], y: &[u8]) -> (r: bool)
    ensures
        r == (x@ == y@),
{
    consistenttime::ct_u8_slice_eq(x, y)
}

} // verus!
