//! Sealing of secrets and ed25519 signing keypairs to a 128-bit key that the
//! platform derives for the running enclave.
//!
//! A secret is encrypted with AES-128-GCM-SIV under the derived key and a
//! fresh nonce, with a 32-byte key identifier as associated data. The key
//! request that names the derivation is stored beside the ciphertext, so that
//! unsealing can ask the platform for the same key again.
//!
//! The platform's key derivation is not part of this crate: every operation
//! that needs the key takes it as an argument and wipes it before it returns.

pub mod aead;
pub mod ct;
pub mod error;
pub mod keypair;
pub mod laws;
pub mod request;
pub mod seal;
pub mod wipe;

pub use error::SealError;
pub use keypair::{Keypair, PublicKey};
pub use request::{seal_key_request, KeyRequest};
pub use seal::{
    seal, seal_payload, seal_secret, unseal, unseal_request, unseal_secret,
    unseal_secret_request, SealedKeyData,
};
