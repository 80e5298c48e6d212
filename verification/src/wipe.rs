//! Overwriting key material, by the `zeroize` crate.

use vstd::prelude::*;
use zeroize::Zeroize;

verus! {

/// `len` zero bytes.
pub open spec fn zeroed(len: nat) -> Seq<u8> {
    Seq::new(len, |i: int| 0u8)
}

/// Calls `Zeroize::zeroize` of `zeroize` on a byte array.
///
/// Believed of it: every byte of the array is zero afterwards.
#[verifier::external_body]
pub(crate) fn wipe<const N: usize>(bytes: &mut [u8; N])
    ensures
        final(bytes)@ == zeroed(N as nat),
{
    bytes.zeroize()
}

/// Calls `Zeroize::zeroize` of `zeroize` on a byte vector.
///
/// Believed of it: the vector is empty afterwards. (The crate overwrites the
/// bytes and the spare capacity before it clears the vector.)
#[verifier::external_body]
pub(crate) fn wipe_vec(bytes: &mut Vec<u8>)
    ensures
        final(bytes)@ == Seq::<u8>::empty(),
{
    bytes.zeroize()
}

} // verus!
