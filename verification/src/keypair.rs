//! Ed25519 public keys and signing keypairs, as the `ed25519_consensus` crate
//! decodes and derives them.
//!
//! A [`PublicKey`] holds 32 bytes that decode to a point of the curve. A
//! [`Keypair`] holds the 32-byte seed of a signing key and its public key.
//! Every `Keypair` is valid: the public key is the one that belongs to the
//! seed.

use crate::ct::ct_eq_bytes;
use crate::error::{fails_with, result_view, SealError};
use crate::wipe::{wipe, wipe_vec, zeroed};
use ed25519_consensus::{SigningKey, VerificationKey};
use vstd::prelude::*;
use zeroize::Zeroize;

verus! {

/// Length of a signing key's seed, and of a public key, in bytes.
pub const KEY_BYTES: usize = 32;

/// The encoded public key of the ed25519 signing key with the given seed. It
/// is meant for a seed of 32 bytes.
pub uninterp spec fn ed25519_public_key(seed: Seq<u8>) -> Seq<u8>;

/// Whether `bytes` are accepted as an encoded ed25519 public key: there are
/// 32 of them and they decode to a point of the curve.
pub uninterp spec fn ed25519_key_valid(bytes: Seq<u8>) -> bool;

/// Calls `SigningKey::try_from` of `ed25519_consensus` on a byte slice and
/// reads the seed and the encoded public key of the key it returns; that key
/// is then zeroized.
///
/// Believed of it: it accepts exactly the slices of 32 bytes; the seed of the
/// key is the slice, and the public key is a function of the seed.
#[verifier::external_body]
pub(crate) fn signing_key_from_slice(bytes: &[u8]) -> (res: Option<([u8; 32], [u8; 32])>)
    ensures
        res is Some <==> bytes@.len() == KEY_BYTES,
        res matches Some(parts) ==> parts.0@ == bytes@,
        res matches Some(parts) ==> parts.1@ == ed25519_public_key(bytes@),
{
    match SigningKey::try_from(bytes) {
        Ok(mut key) => {
            let parts = (key.to_bytes(), key.verification_key().to_bytes());
            key.zeroize();
            Some(parts)
        },
        Err(_) => None,
    }
}

/// Calls `VerificationKey::try_from` of `ed25519_consensus` on the 32 bytes
/// as a slice, and says whether it succeeded.
///
/// Believed of it: whether it succeeds is a function of the bytes.
#[verifier::external_body]
pub(crate) fn verification_key_valid(bytes: &[u8; 32]) -> (valid: bool)
    ensures
        valid == ed25519_key_valid(bytes@),
{
    VerificationKey::try_from(&bytes[..]).is_ok()
}

/// The public key that `bytes` encode, or `Encoding` where they encode none.
pub open spec fn decoded_key(bytes: Seq<u8>) -> Result<Seq<u8>, SealError> {
    if ed25519_key_valid(bytes) {
        Ok(bytes)
    } else {
        Err(SealError::Encoding)
    }
}

/// An ed25519 public key that was decoded once: its bytes are those of a
/// point of the curve.
#[derive(Clone, Copy, Debug)]
pub struct PublicKey {
    bytes: [u8; 32],
}

impl View for PublicKey {
    type V = Seq<u8>;

    closed spec fn view(&self) -> Seq<u8> {
        self.bytes@
    }
}

impl PublicKey {
    #[verifier::type_invariant]
    spec fn well_formed(self) -> bool {
        ed25519_key_valid(self.bytes@)
    }

    /// Decodes `bytes` as a public key, or fails with `Encoding` where they
    /// are not the encoding of a point.
    pub fn from_bytes(bytes: &[u8; 32]) -> (res: Result<PublicKey, SealError>)
        ensures
            result_view(res) == decoded_key(bytes@),
    {
        if verification_key_valid(bytes) {
            Ok(PublicKey { bytes: *bytes })
        } else {
            Err(SealError::Encoding)
        }
    }

    /// The encoded key.
    pub fn as_bytes(&self) -> (bytes: &[u8; 32])
        ensures
            bytes@ == self@,
            ed25519_key_valid(self@),
    {
        proof {
            use_type_invariant(self);
        }
        &self.bytes
    }

    /// A copy of the encoded key.
    pub fn to_bytes(&self) -> (bytes: [u8; 32])
        ensures
            bytes@ == self@,
            ed25519_key_valid(self@),
    {
        proof {
            use_type_invariant(self);
        }
        self.bytes
    }
}

/// A keypair as contracts see it: the seed and the encoded public key.
pub struct KeypairView {
    pub seed: Seq<u8>,
    pub public: Seq<u8>,
}

/// What makes a keypair valid: a 32-byte seed, the public key that belongs to
/// it, and that public key accepted as an encoded key.
pub open spec fn valid_keypair(k: KeypairView) -> bool {
    &&& k.seed.len() == KEY_BYTES
    &&& k.public == ed25519_public_key(k.seed)
    &&& ed25519_key_valid(k.public)
}

/// The keypair that `bytes` are the seed of, or `Encoding` where they are not
/// the seed of a valid keypair.
pub open spec fn keypair_of_seed(bytes: Seq<u8>) -> Result<KeypairView, SealError> {
    let k = KeypairView { seed: bytes, public: ed25519_public_key(bytes) };
    if valid_keypair(k) {
        Ok(k)
    } else {
        Err(SealError::Encoding)
    }
}

/// The keypair that recovered bytes stand for where `recorded` is the public
/// key on record: the bytes must be a 32-byte seed, or recovery fails with
/// `Encoding`; the public key of the seed must be the recorded one, or it
/// fails with `Integrity`.
pub open spec fn recovered_keypair(
    secret: Seq<u8>,
    recorded: Seq<u8>,
) -> Result<KeypairView, SealError> {
    if secret.len() != KEY_BYTES {
        Err(SealError::Encoding)
    } else if ed25519_public_key(secret) != recorded {
        Err(SealError::Integrity)
    } else {
        Ok(KeypairView { seed: secret, public: recorded })
    }
}

/// Compares the public key derived from a recovered seed with the recorded
/// one, in constant time. Where the two differ the seed is wiped and the
/// check fails with `Integrity`; where they are the same the seed is left as
/// it is.
pub fn check_binding(
    seed: &mut [u8; 32],
    derived: &[u8; 32],
    recorded: &[u8; 32],
) -> (res: Result<(), SealError>)
    ensures
        derived@ == recorded@ ==> res is Ok,
        derived@ == recorded@ ==> final(seed)@ == old(seed)@,
        derived@ != recorded@ ==> fails_with(res, SealError::Integrity),
        derived@ != recorded@ ==> final(seed)@ == zeroed(32),
{
    if ct_eq_bytes(derived, recorded) == 0 {
        wipe(seed);
        Err(SealError::Integrity)
    } else {
        Ok(())
    }
}

/// An ed25519 signing keypair.
pub struct Keypair {
    seed: [u8; 32],
    public: PublicKey,
}

impl View for Keypair {
    type V = KeypairView;

    closed spec fn view(&self) -> KeypairView {
        KeypairView { seed: self.seed@, public: self.public@ }
    }
}

impl Keypair {
    #[verifier::type_invariant]
    spec fn well_formed(self) -> bool {
        self.public@ == ed25519_public_key(self.seed@)
    }

    /// Makes the keypair of a 32-byte seed. The public key is derived from the
    /// seed and then decoded, as a stored public key is before it is trusted.
    pub fn from_bytes(bytes: &[u8]) -> (res: Result<Keypair, SealError>)
        ensures
            result_view(res) == keypair_of_seed(bytes@),
    {
        match signing_key_from_slice(bytes) {
            None => Err(SealError::Encoding),
            Some((mut seed, derived)) => {
                match PublicKey::from_bytes(&derived) {
                    Ok(public) => Ok(Keypair { seed, public }),
                    Err(e) => {
                        wipe(&mut seed);
                        Err(e)
                    },
                }
            },
        }
    }

    /// Makes a keypair of recovered bytes, for the public key on record, and
    /// wipes the bytes: `secret` is empty afterwards, whatever the outcome.
    ///
    /// The bytes must be a 32-byte seed, and the public key derived from the
    /// seed must be the recorded one.
    pub fn recover(secret: &mut Vec<u8>, recorded: &PublicKey) -> (res: Result<Keypair, SealError>)
        ensures
            final(secret)@ == Seq::<u8>::empty(),
            result_view(res) == recovered_keypair(old(secret)@, recorded@),
    {
        let parsed = signing_key_from_slice(secret.as_slice());
        wipe_vec(secret);
        match parsed {
            None => Err(SealError::Encoding),
            Some((mut seed, derived)) => {
                match check_binding(&mut seed, &derived, recorded.as_bytes()) {
                    Err(e) => Err(e),
                    Ok(()) => Ok(Keypair { seed, public: *recorded }),
                }
            },
        }
    }

    /// The seed of the signing key.
    pub fn as_bytes(&self) -> (seed: &[u8; 32])
        ensures
            seed@ == self@.seed,
            valid_keypair(self@),
    {
        proof {
            use_type_invariant(self);
            use_type_invariant(&self.public);
        }
        &self.seed
    }

    /// The public key.
    pub fn verification_key(&self) -> (public: PublicKey)
        ensures
            public@ == self@.public,
            valid_keypair(self@),
    {
        proof {
            use_type_invariant(self);
            use_type_invariant(&self.public);
        }
        self.public
    }
}

} // verus!
