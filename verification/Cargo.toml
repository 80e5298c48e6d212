[package]
name = "keypair_seal"
version = "0.1.0"
edition = "2021"
publish = false

[dependencies]
aes-gcm-siv = "0.11"
ed25519-consensus = "2"
rand = "0.8"
sgx-isa = "0.4"
subtle = "2"
zeroize = "1"
