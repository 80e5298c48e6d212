use aes_gcm_siv::aead::generic_array::GenericArray;
use aes_gcm_siv::aead::{Aead, Payload};
use aes_gcm_siv::{Aes128GcmSiv, KeyInit};
use keypair_seal::{
    seal_key_request, seal_payload, seal_secret, unseal_secret, unseal_secret_request,
    KeyRequest, SealError, SealedKeyData,
};
use rand::rngs::OsRng;

const KEY: [u8; 16] = [0x42; 16];
const NONCE: [u8; 12] = [7; 12];
const CPUSVN: [u8; 16] = [5; 16];
const ISVSVN: u16 = 3;

fn seed_bytes() -> [u8; 32] {
    let mut seed = [0u8; 32];
    for i in 0..32 {
        seed[i] = (i + 1) as u8;
    }
    seed
}

fn unhex(text: &str) -> Vec<u8> {
    let digits: Vec<u8> = text.bytes().map(|c| (c as char).to_digit(16).unwrap() as u8).collect();
    digits.chunks(2).map(|pair| pair[0] * 16 + pair[1]).collect()
}

fn copy_of(blob: &SealedKeyData) -> SealedKeyData {
    SealedKeyData {
        seal_key_request: blob.seal_key_request,
        nonce: blob.nonce,
        sealed_secret: blob.sealed_secret.clone(),
    }
}

fn sealed(secret: &[u8], keyid: [u8; 32]) -> SealedKeyData {
    let mut key = KEY;
    seal_payload(NONCE, &mut key, ISVSVN, CPUSVN, secret, keyid).unwrap()
}

fn opened(blob: &SealedKeyData) -> Result<Vec<u8>, SealError> {
    let mut key = KEY;
    unseal_secret(blob, &mut key)
}

#[test]
fn seal_payload_stores_request_and_nonce() {
    let blob = sealed(b"secret", [9; 32]);
    assert_eq!(
        blob.seal_key_request,
        KeyRequest { keyname: 4, keypolicy: 2, isvsvn: 3, cpusvn: [5; 16], keyid: [9; 32] }
    );
    assert_eq!(blob.nonce, NONCE);
}

#[test]
fn ciphertext_is_secret_and_tag() {
    for len in [0usize, 1, 15, 16, 17, 32, 1000] {
        let secret = vec![0xabu8; len];
        let blob = sealed(&secret, [9; 32]);
        assert_eq!(blob.sealed_secret.len(), len + 16);
    }
}

#[test]
fn ciphertext_is_what_the_cipher_gives() {
    let seed = seed_bytes();
    let keyid = unhex("79b5562e8fe654f94078b112e8a98ba7901f853ae695bed7e0e3910bad049664");
    let mut id = [0u8; 32];
    id.copy_from_slice(&keyid);
    let blob = sealed(&seed, id);
    let expected = unhex(
        "d177d1fe5bcd2e6ee76a832cc0bd52f3a180eadd4608ed6e9dc27bbc1019da65\
         1d8caf4d0a7dac5d31c4cbfa2abd46d0",
    );
    assert_eq!(blob.sealed_secret, expected);

    let cipher = Aes128GcmSiv::new(GenericArray::from_slice(&KEY));
    let direct = cipher
        .encrypt(GenericArray::from_slice(&NONCE), Payload { msg: &seed, aad: &id })
        .unwrap();
    assert_eq!(blob.sealed_secret, direct);
    assert_ne!(&blob.sealed_secret[..32], &seed[..]);
}

#[test]
fn unseal_secret_opens_what_the_cipher_sealed() {
    let cipher = Aes128GcmSiv::new(GenericArray::from_slice(&KEY));
    let keyid = [0x11u8; 32];
    let direct = cipher
        .encrypt(GenericArray::from_slice(&NONCE), Payload { msg: b"by hand", aad: &keyid })
        .unwrap();
    let blob = SealedKeyData {
        seal_key_request: KeyRequest {
            keyname: 4,
            keypolicy: 2,
            isvsvn: 0,
            cpusvn: [0; 16],
            keyid,
        },
        nonce: NONCE,
        sealed_secret: direct,
    };
    assert_eq!(opened(&blob), Ok(b"by hand".to_vec()));
}

#[test]
fn seal_payload_is_a_function_of_its_arguments() {
    let first = sealed(b"the same secret", [1; 32]);
    let second = sealed(b"the same secret", [1; 32]);
    assert_eq!(first, second);
    let mut key = KEY;
    let other_nonce =
        seal_payload([8; 12], &mut key, ISVSVN, CPUSVN, b"the same secret", [1; 32]).unwrap();
    assert_ne!(first.sealed_secret, other_nonce.sealed_secret);
}

#[test]
fn unseal_secret_returns_sealed_secret() {
    for len in [0usize, 1, 16, 31, 32, 33, 64, 4096] {
        let secret: Vec<u8> = (0..len).map(|i| (i * 7 + 1) as u8).collect();
        for keyid in [[0u8; 32], [0xffu8; 32], seed_bytes()] {
            let blob = sealed(&secret, keyid);
            assert_eq!(opened(&blob), Ok(secret.clone()));
        }
    }
}

#[test]
fn seal_secret_then_unseal_secret_returns_secret() {
    let secret = b"a secret of some length".to_vec();
    let mut key = KEY;
    let blob = seal_secret(&mut OsRng, &mut key, ISVSVN, CPUSVN, &secret, [3; 32]).unwrap();
    assert_eq!(
        blob.seal_key_request,
        KeyRequest { keyname: 4, keypolicy: 2, isvsvn: 3, cpusvn: [5; 16], keyid: [3; 32] }
    );
    assert_eq!(blob.sealed_secret.len(), secret.len() + 16);
    assert_eq!(opened(&blob), Ok(secret.clone()));

    let mut key = KEY;
    let same_nonce =
        seal_payload(blob.nonce, &mut key, ISVSVN, CPUSVN, &secret, [3; 32]).unwrap();
    assert_eq!(blob, same_nonce);
}

#[test]
fn seal_secret_draws_a_nonce_each_time() {
    let mut key = KEY;
    let first = seal_secret(&mut OsRng, &mut key, ISVSVN, CPUSVN, b"secret", [3; 32]).unwrap();
    let mut key = KEY;
    let second = seal_secret(&mut OsRng, &mut key, ISVSVN, CPUSVN, b"secret", [3; 32]).unwrap();
    assert_ne!(first.nonce, second.nonce);
    assert_ne!(first.sealed_secret, second.sealed_secret);
    assert_eq!(opened(&first), Ok(b"secret".to_vec()));
    assert_eq!(opened(&second), Ok(b"secret".to_vec()));
}

#[test]
fn example_seed_unseals_and_changed_nonce_fails() {
    let seed = seed_bytes();
    let public = ed25519_consensus::SigningKey::from(seed).verification_key().to_bytes();
    let blob = sealed(&seed, public);
    assert_eq!(opened(&blob), Ok(seed.to_vec()));

    let mut changed = copy_of(&blob);
    changed.nonce[0] = changed.nonce[0].wrapping_add(1);
    assert_eq!(opened(&changed), Err(SealError::Authentication));
}

#[test]
fn flipping_any_ciphertext_bit_fails_authentication() {
    let blob = sealed(&seed_bytes(), [9; 32]);
    for byte in 0..blob.sealed_secret.len() {
        for bit in 0..8 {
            let mut changed = copy_of(&blob);
            changed.sealed_secret[byte] ^= 1 << bit;
            assert_eq!(opened(&changed), Err(SealError::Authentication));
        }
    }
}

#[test]
fn flipping_any_nonce_bit_fails_authentication() {
    let blob = sealed(&seed_bytes(), [9; 32]);
    for byte in 0..12 {
        for bit in 0..8 {
            let mut changed = copy_of(&blob);
            changed.nonce[byte] ^= 1 << bit;
            assert_eq!(opened(&changed), Err(SealError::Authentication));
        }
    }
}

#[test]
fn flipping_any_key_identifier_bit_fails_authentication() {
    let blob = sealed(&seed_bytes(), [9; 32]);
    for byte in 0..32 {
        for bit in 0..8 {
            let mut changed = copy_of(&blob);
            changed.seal_key_request.keyid[byte] ^= 1 << bit;
            assert_eq!(opened(&changed), Err(SealError::Authentication));
        }
    }
}

#[test]
fn another_key_fails_authentication() {
    let blob = sealed(b"secret", [9; 32]);
    let mut key = [0x43u8; 16];
    assert_eq!(unseal_secret(&blob, &mut key), Err(SealError::Authentication));
}

#[test]
fn ciphertext_shorter_than_a_tag_fails_authentication() {
    for len in 0..16 {
        let mut blob = sealed(b"secret", [9; 32]);
        blob.sealed_secret = vec![0; len];
        assert_eq!(opened(&blob), Err(SealError::Authentication));
    }
}

#[test]
fn altered_keyname_is_format_error() {
    for keyname in [0u16, 1, 2, 3, 5, 6, 0x0104, 0xffff] {
        let mut blob = sealed(b"secret", [9; 32]);
        blob.seal_key_request.keyname = keyname;
        assert_eq!(unseal_secret_request(&blob), Err(SealError::Format));
        assert_eq!(opened(&blob), Err(SealError::Format));

        blob.sealed_secret = Vec::new();
        blob.nonce = [0; 12];
        assert_eq!(opened(&blob), Err(SealError::Format));
    }
}

#[test]
fn unknown_policy_bits_are_format_error() {
    for keypolicy in [4u16, 6, 8, 0x0100, 0x8002, 0xffff] {
        let mut blob = sealed(b"secret", [9; 32]);
        blob.seal_key_request.keypolicy = keypolicy;
        assert_eq!(unseal_secret_request(&blob), Err(SealError::Format));
        assert_eq!(opened(&blob), Err(SealError::Format));
    }
}

#[test]
fn known_policy_bits_are_replayed() {
    for keypolicy in [0u16, 1, 2, 3] {
        let mut blob = sealed(b"secret", [9; 32]);
        blob.seal_key_request.keypolicy = keypolicy;
        assert_eq!(unseal_secret_request(&blob), Ok(blob.seal_key_request));
        assert_eq!(opened(&blob), Ok(b"secret".to_vec()));
    }
}

#[test]
fn unseal_secret_request_returns_stored_request() {
    let mut key = KEY;
    let blob = seal_payload(NONCE, &mut key, 0x1234, [0xee; 16], b"secret", [9; 32]).unwrap();
    assert_eq!(
        unseal_secret_request(&blob),
        Ok(KeyRequest {
            keyname: 4,
            keypolicy: 2,
            isvsvn: 0x1234,
            cpusvn: [0xee; 16],
            keyid: [9; 32]
        })
    );
}

#[test]
fn sealed_secret_replays_the_request_it_was_sealed_for() {
    let mut key = KEY;
    let blob = seal_secret(&mut OsRng, &mut key, 9, [8; 16], b"secret", [7; 32]).unwrap();
    assert_eq!(unseal_secret_request(&blob), Ok(seal_key_request(9, [8; 16], [7; 32])));
}

#[test]
fn unseal_secret_is_deterministic() {
    let good = sealed(&seed_bytes(), [9; 32]);
    assert_eq!(opened(&good), opened(&copy_of(&good)));
    assert_eq!(opened(&good), Ok(seed_bytes().to_vec()));

    let mut forged = copy_of(&good);
    forged.sealed_secret[0] ^= 1;
    assert_eq!(opened(&forged), opened(&copy_of(&forged)));

    let mut misnamed = copy_of(&good);
    misnamed.seal_key_request.keyname = 3;
    assert_eq!(opened(&misnamed), opened(&copy_of(&misnamed)));
}

#[test]
fn key_is_wiped_after_sealing_and_unsealing_a_secret() {
    let mut key = KEY;
    let blob = seal_payload(NONCE, &mut key, ISVSVN, CPUSVN, b"secret", [9; 32]).unwrap();
    assert_eq!(key, [0u8; 16]);

    let mut key = KEY;
    seal_secret(&mut OsRng, &mut key, ISVSVN, CPUSVN, b"secret", [9; 32]).unwrap();
    assert_eq!(key, [0u8; 16]);

    let mut key = KEY;
    assert!(unseal_secret(&blob, &mut key).is_ok());
    assert_eq!(key, [0u8; 16]);

    let mut forged = copy_of(&blob);
    forged.sealed_secret[3] ^= 0x10;
    let mut key = KEY;
    assert_eq!(unseal_secret(&forged, &mut key), Err(SealError::Authentication));
    assert_eq!(key, [0u8; 16]);

    let mut misnamed = copy_of(&blob);
    misnamed.seal_key_request.keyname = 0;
    let mut key = KEY;
    assert_eq!(unseal_secret(&misnamed, &mut key), Err(SealError::Format));
    assert_eq!(key, [0u8; 16]);
}
