//! Authenticated encryption and password-based key derivation behind a
//! stable, integer-coded interface.
//!
//! The library frames AES-256-GCM ciphertexts in a fixed envelope
//! (`[nonce:12][ciphertext_len:u32 BE][ciphertext]`), derives keys with
//! Argon2id, and dispatches between a hosted profile (operating-system
//! randomness, Argon2id keys) and an embedded profile (a fixed working
//! capacity, placeholder key derivation and randomness, and a hardware
//! attempt before the software path).
//!
//! Modules, leaves first: `error` (the outcome codes), `envelope` (the wire
//! format), `buffer` (all-or-nothing output writes), `cipher` (AES-256-GCM),
//! `rng` (random sources), `kdf` (key derivation and password hashing),
//! `hardware` (the accelerator adapter), `dispatch` (the entry points) and
//! `laws` (properties stated across entry points).

pub mod error;
pub mod envelope;
pub mod buffer;
pub mod cipher;
pub mod rng;
pub mod kdf;
pub mod hardware;
pub mod dispatch;
pub mod laws;

pub use error::CryptoErrorCode;
pub use envelope::{decode_envelope, encode_envelope, encoded_len, FormatError};
pub use cipher::{decrypt, encrypt};
pub use rng::get_random_bytes;
pub use kdf::{
    derive_key_from_password, derive_key_from_password_internal, hash_password, hash_password_with_salt,
    simple_key_derivation, write_c_string,
};
pub use hardware::{decrypt_with_hardware, encrypt_with_hardware};
pub use dispatch::{
    decrypt_data, decrypt_data_embedded, encrypt_data, encrypt_data_embedded, open_envelope,
    seal_envelope, EMBEDDED_MAX_PAYLOAD, MAX_PAYLOAD_LEN,
};
