//! Comparison of public keys in constant time, by the `subtle` crate.

use subtle::ConstantTimeEq;
use vstd::prelude::*;

verus! {

/// Calls `ConstantTimeEq::ct_eq` of `subtle` on two 32-byte slices and unwraps
/// the `Choice` it returns.
///
/// Believed of it: the result is 1 where the two hold the same bytes, else 0.
#[verifier::external_body]
pub(crate) fn ct_eq_bytes(a: &[u8; 32], b: &[u8; 32]) -> (same: u8)
    ensures
        same == (if a@ == b@ { 1u8 } else { 0u8 }),
{
    a.ct_eq(b).unwrap_u8()
}

} // verus!
