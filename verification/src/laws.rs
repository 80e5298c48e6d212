//! What holds of unsealing, whatever the cipher and the curve compute.
//!
//! The laws speak of the spec functions that the contracts of sealing and
//! unsealing use. That unsealing gives back what was sealed is stated where
//! the ciphertext is made: in the contracts of `seal_payload`, `seal_secret`
//! and `seal`.

use crate::aead::aead_open;
use crate::error::{fails_with, gives, SealError};
use crate::keypair::{ed25519_key_valid, ed25519_public_key, valid_keypair, KEY_BYTES};
use crate::request::{replayable, seal_request, KEYNAME_SEAL};
use crate::seal::{
    replayed_keypair_request, replayed_request, sealed_blob, unsealed_keypair, unsealed_secret,
    SealedKeyData, SealedView,
};
use vstd::prelude::*;

verus! {

/// A request of another key class than "Seal" is refused as `Format`,
/// whatever the key, the nonce and the ciphertext are: nothing is decrypted
/// to find it out. For a keypair this comes after the check of the key
/// identifier.
pub proof fn lemma_wrong_key_class_is_refused(blob: SealedView, key: Seq<u8>)
    requires
        blob.request.keyname != KEYNAME_SEAL,
    ensures
        fails_with(replayed_request(blob), SealError::Format),
        fails_with(unsealed_secret(blob, key), SealError::Format),
        ed25519_key_valid(blob.request.keyid) ==> fails_with(
            unsealed_keypair(blob, key),
            SealError::Format,
        ),
        !ed25519_key_valid(blob.request.keyid) ==> fails_with(
            unsealed_keypair(blob, key),
            SealError::Encoding,
        ),
{
}

/// Where the request can be replayed and the ciphertext does not
/// authenticate under the key, the stored nonce and the stored key
/// identifier, unsealing fails with `Authentication`.
pub proof fn lemma_unauthentic_ciphertext_is_refused(blob: SealedView, key: Seq<u8>)
    requires
        replayable(blob.request),
        aead_open(key, blob.nonce, blob.request.keyid, blob.ciphertext) is None,
    ensures
        fails_with(unsealed_secret(blob, key), SealError::Authentication),
        ed25519_key_valid(blob.request.keyid) ==> fails_with(
            unsealed_keypair(blob, key),
            SealError::Authentication,
        ),
{
}

/// A ciphertext that authenticates does not suffice for a keypair: where the
/// recovered seed belongs to another public key than the recorded one,
/// unsealing fails with `Integrity`.
pub proof fn lemma_foreign_seed_is_refused(blob: SealedView, key: Seq<u8>, seed: Seq<u8>)
    requires
        ed25519_key_valid(blob.request.keyid),
        replayable(blob.request),
        aead_open(key, blob.nonce, blob.request.keyid, blob.ciphertext) == Some(seed),
        seed.len() == KEY_BYTES,
        ed25519_public_key(seed) != blob.request.keyid,
    ensures
        fails_with(unsealed_keypair(blob, key), SealError::Integrity),
{
}

/// A keypair that unsealing returns is valid, and its public key is the
/// recorded key identifier. So a ciphertext moved into sealed data with
/// another key identifier never unseals to the keypair it was made from.
pub proof fn lemma_unsealed_keypair_is_bound(blob: SealedView, key: Seq<u8>)
    ensures
        unsealed_keypair(blob, key) matches Ok(k) ==> valid_keypair(k) && k.public
            == blob.request.keyid,
{
}

/// The request that unsealing replays is the one that sealing derived its
/// key for: sealed data passes the checks of its request, for a secret and,
/// where the key identifier is an encoded public key, for a keypair.
pub proof fn lemma_sealed_request_is_replayed(
    blob: SealedView,
    nonce: Seq<u8>,
    key: Seq<u8>,
    isvsvn: u16,
    cpusvn: Seq<u8>,
    secret: Seq<u8>,
    keyid: Seq<u8>,
)
    requires
        gives(sealed_blob(nonce, key, isvsvn, cpusvn, secret, keyid), blob),
    ensures
        gives(replayed_request(blob), seal_request(isvsvn, cpusvn, keyid)),
        ed25519_key_valid(keyid) ==> gives(
            replayed_keypair_request(blob),
            seal_request(isvsvn, cpusvn, keyid),
        ),
{
}

/// Unsealing is a function of the bytes: the same sealed data under the same
/// key gives the same outcome, the same secret or the same error, wherever
/// the two copies are held.
pub proof fn lemma_unseal_is_deterministic(
    first: SealedKeyData,
    first_key: [u8; 16],
    second: SealedKeyData,
    second_key: [u8; 16],
)
    requires
        first@ == second@,
        first_key@ == second_key@,
    ensures
        replayed_request(first@) == replayed_request(second@),
        replayed_keypair_request(first@) == replayed_keypair_request(second@),
        unsealed_secret(first@, first_key@) == unsealed_secret(second@, second_key@),
        unsealed_keypair(first@, first_key@) == unsealed_keypair(second@, second_key@),
{
}

} // verus!
