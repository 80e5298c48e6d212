//! Sealing and unsealing.
//!
//! Sealing encrypts a secret under the key that the platform derived for a
//! sealing request, and stores the request and the nonce beside the
//! ciphertext. Unsealing replays the stored request: the caller asks this
//! module which request to derive the key for, derives it, and hands the key
//! back with the sealed data.
//!
//! Every function that takes the key wipes it before it returns, whatever the
//! outcome.

use crate::aead::{aead_accepts, aead_decrypt, aead_encrypt, aead_open, aead_seal, TAG_LEN};
use crate::error::{fails_with, gives, result_view, SealError};
use crate::keypair::{ed25519_key_valid, recovered_keypair, Keypair, KeypairView, PublicKey};
use crate::request::{
    keyname_seal, keypolicy_from_bits, lemma_seal_request_replayable, replayable,
    seal_key_request, seal_request, KeyRequest, KeyRequestView,
};
use crate::wipe::{wipe, zeroed};
use rand::rngs::OsRng;
use rand::RngCore;
use vstd::prelude::*;

verus! {

/// A sealed secret: the key request it was sealed for, the nonce, and the
/// ciphertext with its tag.
#[derive(Debug, PartialEq, Eq)]
pub struct SealedKeyData {
    /// The request that names the sealing key.
    pub seal_key_request: KeyRequest,
    /// The nonce of the encryption.
    pub nonce: [u8; 12],
    /// The encrypted secret, followed by the 16-byte tag.
    pub sealed_secret: Vec<u8>,
}

/// Sealed data as contracts see it.
pub struct SealedView {
    pub request: KeyRequestView,
    pub nonce: Seq<u8>,
    pub ciphertext: Seq<u8>,
}

impl View for SealedKeyData {
    type V = SealedView;

    open spec fn view(&self) -> SealedView {
        SealedView {
            request: self.seal_key_request@,
            nonce: self.nonce@,
            ciphertext: self.sealed_secret@,
        }
    }
}

/// What sealing `secret` gives under `key` and `nonce`, for an enclave at the
/// given versions: the sealing request for `keyid`, the nonce, and the
/// encryption of the secret with `keyid` as associated data. A secret too
/// long for the cipher is refused.
pub open spec fn sealed_blob(
    nonce: Seq<u8>,
    key: Seq<u8>,
    isvsvn: u16,
    cpusvn: Seq<u8>,
    secret: Seq<u8>,
    keyid: Seq<u8>,
) -> Result<SealedView, SealError> {
    if aead_accepts(keyid, secret) {
        Ok(
            SealedView {
                request: seal_request(isvsvn, cpusvn, keyid),
                nonce,
                ciphertext: aead_seal(key, nonce, keyid, secret),
            },
        )
    } else {
        Err(SealError::Authentication)
    }
}

/// The request to derive the key for before a secret is unsealed: the stored
/// one, unless it is of another key class or holds unknown policy bits.
pub open spec fn replayed_request(blob: SealedView) -> Result<KeyRequestView, SealError> {
    if replayable(blob.request) {
        Ok(blob.request)
    } else {
        Err(SealError::Format)
    }
}

/// What unsealing gives under `key`: the stored request is checked first,
/// then the ciphertext is opened with the stored key identifier as
/// associated data.
pub open spec fn unsealed_secret(blob: SealedView, key: Seq<u8>) -> Result<Seq<u8>, SealError> {
    if !replayable(blob.request) {
        Err(SealError::Format)
    } else {
        match aead_open(key, blob.nonce, blob.request.keyid, blob.ciphertext) {
            Some(secret) => Ok(secret),
            None => Err(SealError::Authentication),
        }
    }
}

/// The request to derive the key for before a keypair is unsealed: the key
/// identifier must be an encoded public key, then the stored request is
/// checked.
pub open spec fn replayed_keypair_request(blob: SealedView) -> Result<KeyRequestView, SealError> {
    if !ed25519_key_valid(blob.request.keyid) {
        Err(SealError::Encoding)
    } else {
        replayed_request(blob)
    }
}

/// What unsealing a keypair gives under `key`: the key identifier must be an
/// encoded public key; the secret is unsealed; and the secret must be the
/// seed of the keypair whose public key is the key identifier.
pub open spec fn unsealed_keypair(blob: SealedView, key: Seq<u8>) -> Result<KeypairView, SealError> {
    if !ed25519_key_valid(blob.request.keyid) {
        Err(SealError::Encoding)
    } else {
        match unsealed_secret(blob, key) {
            Err(e) => Err(e),
            Ok(secret) => recovered_keypair(secret, blob.request.keyid),
        }
    }
}

/// The operating system's source of random bytes.
#[verifier::external_type_specification]
#[verifier::external_body]
pub struct ExOsRng(OsRng);

/// Calls `RngCore::fill_bytes` of `rand` on a 12-byte buffer.
///
/// Nothing is believed of the bytes.
#[verifier::external_body]
pub(crate) fn fresh_nonce(csprng: &mut OsRng) -> (nonce: [u8; 12]) {
    let mut nonce = [0u8; 12];
    csprng.fill_bytes(&mut nonce);
    nonce
}

/// Puts sealed data together from the request, the nonce and what the cipher
/// returned: its ciphertext, or `Authentication` where it refused to encrypt.
pub fn sealed_from(
    request: KeyRequest,
    nonce: [u8; 12],
    encrypted: Result<Vec<u8>, aes_gcm_siv::Error>,
) -> (res: Result<SealedKeyData, SealError>)
    ensures
        encrypted matches Ok(ciphertext) ==> gives(
            result_view(res),
            (SealedView { request: request@, nonce: nonce@, ciphertext: ciphertext@ }),
        ),
        encrypted is Err ==> fails_with(res, SealError::Authentication),
{
    match encrypted {
        Ok(sealed_secret) => Ok(SealedKeyData { seal_key_request: request, nonce, sealed_secret }),
        Err(_) => Err(SealError::Authentication),
    }
}

/// Turns what the cipher returned for a ciphertext into the outcome of
/// unsealing: the secret, or `Authentication` where the cipher refused.
pub fn secret_from(opened: Result<Vec<u8>, aes_gcm_siv::Error>) -> (res: Result<Vec<u8>, SealError>)
    ensures
        opened matches Ok(secret) ==> gives(result_view(res), secret@),
        opened is Err ==> fails_with(res, SealError::Authentication),
{
    match opened {
        Ok(secret) => Ok(secret),
        Err(_) => Err(SealError::Authentication),
    }
}

/// Seals `secret` under `key` with the given nonce, for an enclave whose
/// versions are `isvsvn` and `cpusvn`. `keyid` goes into the request and is
/// the associated data of the encryption.
///
/// The nonce must be fresh for the key: [`seal_secret`] and [`seal`] draw it.
pub fn seal_payload(
    nonce: [u8; 12],
    key: &mut [u8; 16],
    isvsvn: u16,
    cpusvn: [u8; 16],
    secret: &[u8],
    keyid: [u8; 32],
) -> (res: Result<SealedKeyData, SealError>)
    ensures
        final(key)@ == zeroed(16),
        result_view(res) == sealed_blob(nonce@, old(key)@, isvsvn, cpusvn@, secret@, keyid@),
        res matches Ok(blob) ==> blob@.ciphertext.len() == secret@.len() + TAG_LEN,
        res matches Ok(blob) ==> gives(unsealed_secret(blob@, old(key)@), secret@),
{
    let request = seal_key_request(isvsvn, cpusvn, keyid);
    let encrypted = aead_encrypt(key, &nonce, &keyid, secret);
    wipe(key);
    proof {
        lemma_seal_request_replayable(isvsvn, cpusvn@, keyid@);
    }
    sealed_from(request, nonce, encrypted)
}

/// Seals `secret` under `key` with a nonce drawn from `csprng`, for an enclave
/// whose versions are `isvsvn` and `cpusvn`. `keyid` goes into the request and
/// is the associated data of the encryption.
///
/// `key` is the key that the platform derives for
/// `seal_key_request(isvsvn, cpusvn, keyid)`.
pub fn seal_secret(
    csprng: &mut OsRng,
    key: &mut [u8; 16],
    isvsvn: u16,
    cpusvn: [u8; 16],
    secret: &[u8],
    keyid: [u8; 32],
) -> (res: Result<SealedKeyData, SealError>)
    ensures
        final(key)@ == zeroed(16),
        res is Ok <==> aead_accepts(keyid@, secret@),
        res is Err ==> fails_with(res, SealError::Authentication),
        res matches Ok(blob) ==> gives(
            sealed_blob(blob@.nonce, old(key)@, isvsvn, cpusvn@, secret@, keyid@),
            blob@,
        ),
        res matches Ok(blob) ==> blob@.ciphertext.len() == secret@.len() + TAG_LEN,
        res matches Ok(blob) ==> gives(unsealed_secret(blob@, old(key)@), secret@),
{
    let nonce = fresh_nonce(csprng);
    seal_payload(nonce, key, isvsvn, cpusvn, secret, keyid)
}

/// Seals the seed of `keypair` under `key` with a nonce drawn from `csprng`,
/// for an enclave whose versions are `isvsvn` and `cpusvn`. The public key
/// is the key identifier, so the ciphertext is bound to it.
///
/// `key` is the key that the platform derives for
/// `seal_key_request(isvsvn, cpusvn, keypair.verification_key())`.
pub fn seal(
    csprng: &mut OsRng,
    key: &mut [u8; 16],
    isvsvn: u16,
    cpusvn: [u8; 16],
    keypair: &Keypair,
) -> (res: Result<SealedKeyData, SealError>)
    ensures
        final(key)@ == zeroed(16),
        res is Ok,
        res matches Ok(blob) ==> gives(
            sealed_blob(blob@.nonce, old(key)@, isvsvn, cpusvn@, keypair@.seed, keypair@.public),
            blob@,
        ),
        res matches Ok(blob) ==> gives(unsealed_keypair(blob@, old(key)@), keypair@),
{
    let public = keypair.verification_key();
    let nonce = fresh_nonce(csprng);
    seal_payload(nonce, key, isvsvn, cpusvn, keypair.as_bytes(), public.to_bytes())
}

/// Checks the request stored with a sealed secret and returns it: the
/// request to derive the key for before [`unseal_secret`] is called.
pub fn unseal_secret_request(sealed: &SealedKeyData) -> (res: Result<KeyRequest, SealError>)
    ensures
        result_view(res) == replayed_request(sealed@),
{
    if sealed.seal_key_request.keyname != keyname_seal() {
        return Err(SealError::Format);
    }
    if !keypolicy_from_bits(sealed.seal_key_request.keypolicy) {
        return Err(SealError::Format);
    }
    Ok(sealed.seal_key_request)
}

/// Unseals a secret under `key`, the key that the platform derived for the
/// stored request.
///
/// The stored request is checked before anything is decrypted. The secret is
/// returned only where the ciphertext authenticates under the key, the
/// stored nonce and the stored key identifier.
pub fn unseal_secret(
    sealed: &SealedKeyData,
    key: &mut [u8; 16],
) -> (res: Result<Vec<u8>, SealError>)
    ensures
        final(key)@ == zeroed(16),
        result_view(res) == unsealed_secret(sealed@, old(key)@),
        res matches Ok(secret) ==> secret@.len() + TAG_LEN == sealed@.ciphertext.len(),
{
    match unseal_secret_request(sealed) {
        Err(e) => {
            wipe(key);
            Err(e)
        },
        Ok(request) => {
            let opened = aead_decrypt(
                key,
                &sealed.nonce,
                &request.keyid,
                sealed.sealed_secret.as_slice(),
            );
            wipe(key);
            secret_from(opened)
        },
    }
}

/// Checks the key identifier and the request stored with a sealed keypair
/// and returns the request: the one to derive the key for before [`unseal`]
/// is called.
pub fn unseal_request(sealed: &SealedKeyData) -> (res: Result<KeyRequest, SealError>)
    ensures
        result_view(res) == replayed_keypair_request(sealed@),
{
    match PublicKey::from_bytes(&sealed.seal_key_request.keyid) {
        Err(e) => Err(e),
        Ok(_) => unseal_secret_request(sealed),
    }
}

/// Unseals a keypair under `key`, the key that the platform derived for the
/// stored request.
///
/// The key identifier must be an encoded public key. The seed is unsealed as
/// a secret is; the public key is derived from it again and compared, in
/// constant time, with the key identifier. Recovered key bytes that are not
/// returned are wiped.
pub fn unseal(sealed: &SealedKeyData, key: &mut [u8; 16]) -> (res: Result<Keypair, SealError>)
    ensures
        final(key)@ == zeroed(16),
        result_view(res) == unsealed_keypair(sealed@, old(key)@),
{
    match PublicKey::from_bytes(&sealed.seal_key_request.keyid) {
        Err(e) => {
            wipe(key);
            Err(e)
        },
        Ok(recorded) => match unseal_secret(sealed, key) {
            Err(e) => Err(e),
            Ok(mut secret) => Keypair::recover(&mut secret, &recorded),
        },
    }
}

} // verus!
