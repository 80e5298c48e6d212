//! AES-128-GCM-SIV, as the `aes_gcm_siv` crate computes it.
//!
//! What the cipher returns is not spelled out here. Its two results have
//! names, [`aead_seal`] and [`aead_open`], and the contracts of this crate
//! speak of those names.

use aes_gcm_siv::aead::generic_array::GenericArray;
use aes_gcm_siv::aead::{Aead, Payload};
use aes_gcm_siv::{Aes128GcmSiv, KeyInit};
use vstd::prelude::*;

verus! {

/// Length of the authentication tag that closes every ciphertext.
pub const TAG_LEN: usize = 16;

/// The longest message, and the longest associated data, that the cipher
/// accepts: 2^36 bytes.
pub const AEAD_MAX_LEN: u64 = 0x10_0000_0000;

/// Whether the cipher takes a message with this associated data: neither is
/// longer than [`AEAD_MAX_LEN`].
pub open spec fn aead_accepts(aad: Seq<u8>, msg: Seq<u8>) -> bool {
    msg.len() <= AEAD_MAX_LEN && aad.len() <= AEAD_MAX_LEN
}

/// The ciphertext, tag included, that AES-128-GCM-SIV gives for `msg` under
/// `key` and `nonce` with associated data `aad`. It is meant for a 16-byte
/// key, a 12-byte nonce, and a message and associated data that the cipher
/// accepts.
pub uninterp spec fn aead_seal(key: Seq<u8>, nonce: Seq<u8>, aad: Seq<u8>, msg: Seq<u8>) -> Seq<u8>;

/// The message that AES-128-GCM-SIV recovers from `ciphertext` under `key` and
/// `nonce` with associated data `aad`, or `None` where the ciphertext does not
/// authenticate.
pub uninterp spec fn aead_open(key: Seq<u8>, nonce: Seq<u8>, aad: Seq<u8>, ciphertext: Seq<u8>) -> Option<Seq<u8>>;

/// The error of the `aead` traits, which says nothing of its cause.
#[verifier::external_type_specification]
#[verifier::external_body]
pub struct ExAeadError(aes_gcm_siv::Error);

/// Calls `Aes128GcmSiv::encrypt` of `aes_gcm_siv` with a cipher made from
/// `key` by `Aes128GcmSiv::new`.
///
/// Believed of it: it refuses exactly the messages and associated data longer
/// than 2^36 bytes; what it returns otherwise is the message's length and 16
/// bytes long, is a function of the four arguments, and decrypts to the
/// message under the same key, nonce and associated data.
#[verifier::external_body]
pub(crate) fn aead_encrypt(
    key: &[u8; 16],
    nonce: &[u8; 12],
    aad: &[u8],
    msg: &[u8],
) -> (res: Result<Vec<u8>, aes_gcm_siv::Error>)
    ensures
        res is Ok <==> aead_accepts(aad@, msg@),
        res matches Ok(ciphertext) ==> ciphertext@ == aead_seal(key@, nonce@, aad@, msg@),
        res matches Ok(ciphertext) ==> ciphertext@.len() == msg@.len() + TAG_LEN,
        res matches Ok(ciphertext) ==> aead_open(key@, nonce@, aad@, ciphertext@) == Some(msg@),
{
    let cipher = Aes128GcmSiv::new(GenericArray::from_slice(key));
    cipher.encrypt(GenericArray::from_slice(nonce), Payload { msg, aad })
}

/// Calls `Aes128GcmSiv::decrypt` of `aes_gcm_siv` with a cipher made from
/// `key` by `Aes128GcmSiv::new`.
///
/// Believed of it: whether it succeeds, and the message it then returns, is a
/// function of the four arguments; a message that it returns is 16 bytes
/// shorter than the ciphertext.
#[verifier::external_body]
pub(crate) fn aead_decrypt(
    key: &[u8; 16],
    nonce: &[u8; 12],
    aad: &[u8],
    ciphertext: &[u8],
) -> (res: Result<Vec<u8>, aes_gcm_siv::Error>)
    ensures
        res matches Ok(msg) ==> aead_open(key@, nonce@, aad@, ciphertext@) == Some(msg@),
        res matches Ok(msg) ==> msg@.len() + TAG_LEN == ciphertext@.len(),
        res is Err ==> aead_open(key@, nonce@, aad@, ciphertext@) is None,
{
    let cipher = Aes128GcmSiv::new(GenericArray::from_slice(key));
    cipher.decrypt(GenericArray::from_slice(nonce), Payload { msg: ciphertext, aad })
}

} // verus!
