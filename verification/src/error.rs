//! The ways in which sealing and unsealing fail.

use vstd::prelude::*;

verus! {

/// Why a seal or unseal operation was refused.
#[derive(Clone, Copy, Debug, PartialEq, Eq)]
pub enum SealError {
    /// The platform did not derive the sealing key. No function of this crate
    /// derives keys; the variant is for the caller that does.
    KeyDerivation,
    /// The stored key request is of the wrong key class or holds unknown
    /// policy bits.
    Format,
    /// The ciphertext did not authenticate under the key, nonce and key
    /// identifier, or the message was too long to encrypt.
    Authentication,
    /// The bytes of a public key or of a signing key are malformed.
    Encoding,
    /// The public key of the recovered signing key is not the recorded one.
    Integrity,
}

/// An outcome as contracts see it: the view of what was returned, or the
/// error.
pub open spec fn result_view<T: View>(res: Result<T, SealError>) -> Result<T::V, SealError> {
    match res {
        Ok(value) => Ok(value@),
        Err(e) => Err(e),
    }
}

/// Whether `res` is the failure `e`.
pub open spec fn fails_with<T>(res: Result<T, SealError>, e: SealError) -> bool {
    res == Err::<T, SealError>(e)
}

/// Whether `res` is the success `value`.
pub open spec fn gives<T>(res: Result<T, SealError>, value: T) -> bool {
    res == Ok::<T, SealError>(value)
}

} // verus!
