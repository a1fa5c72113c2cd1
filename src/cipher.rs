use vstd::prelude::*;
use aes_gcm::aead::{Aead, KeyInit};
use crate::error::CryptoErrorCode;

verus! {

/// Bytes of an AES-256 key.
pub const KEY_LEN: usize = 32;

/// Bytes of the GCM authentication tag appended to each ciphertext.
pub const TAG_LEN: usize = 16;

/// The longest plaintext AES-GCM seals, in bytes (2^36).
pub const GCM_MAX_PLAINTEXT: u64 = 0x10_0000_0000;

/// AES-256-GCM with a 96-bit nonce and a 128-bit tag.
type Aes256Gcm = aes_gcm::AesGcm<aes::Aes256, generic_array::typenum::U12, generic_array::typenum::U16>;

/// The ciphertext (with its tag appended) that AES-256-GCM makes of
/// `plaintext` under `key` and `nonce`, without associated data.
pub uninterp spec fn gcm_sealed(key: Seq<u8>, nonce: Seq<u8>, plaintext: Seq<u8>) -> Seq<u8>;

/// The plaintext, of at most `GCM_MAX_PLAINTEXT` bytes, whose sealing under
/// `key` and `nonce` is exactly `ciphertext`, if there is one.
pub open spec fn gcm_opened(key: Seq<u8>, nonce: Seq<u8>, ciphertext: Seq<u8>) -> Option<Seq<u8>> {
    if exists|p: Seq<u8>| p.len() <= GCM_MAX_PLAINTEXT && gcm_sealed(key, nonce, p) == ciphertext {
        Some(
            choose|p: Seq<u8>| p.len() <= GCM_MAX_PLAINTEXT && gcm_sealed(key, nonce, p) == ciphertext,
        )
    } else {
        None
    }
}

/// Relies on aes_gcm's `Aead::encrypt` for `AesGcm<Aes256, U12, U16>`: the
/// ciphertext is the plaintext XORed with a keystream fixed by key, nonce
/// and length, followed by a 16-byte tag, so no other plaintext seals to it.
/// It fails only above `P_MAX` (2^36) bytes.
#[verifier::external_body]
fn aes_gcm_seal(key: &[u8; 32], nonce: &[u8; 12], plaintext: &[u8]) -> (r: Result<Vec<u8>, ()>)
    ensures
        r is Ok <==> plaintext@.len() <= GCM_MAX_PLAINTEXT,
        r matches Ok(c) ==> {
            &&& c@ == gcm_sealed(key@, nonce@, plaintext@)
            &&& c@.len() == plaintext@.len() + TAG_LEN
            &&& forall|q: Seq<u8>|
                q.len() <= GCM_MAX_PLAINTEXT && #[trigger] gcm_sealed(key@, nonce@, q) == c@ ==> q
                    == plaintext@
        },
{
    let cipher = Aes256Gcm::new(aes_gcm::Key::<Aes256Gcm>::from_slice(key));
    cipher.encrypt(aes_gcm::Nonce::from_slice(nonce), plaintext).map_err(|_| ())
}

/// Relies on aes_gcm's `Aead::decrypt` for `AesGcm<Aes256, U12, U16>`: it
/// returns a plaintext only when the trailing tag authenticates the rest
/// under key and nonce, and that plaintext seals back to exactly the input;
/// otherwise it fails.
#[verifier::external_body]
fn aes_gcm_open(key: &[u8; 32], nonce: &[u8; 12], ciphertext: &[u8]) -> (r: Result<Vec<u8>, ()>)
    requires
        ciphertext@.len() <= GCM_MAX_PLAINTEXT + TAG_LEN,
    ensures
        match r {
            Ok(p) => {
                &&& gcm_sealed(key@, nonce@, p@) == ciphertext@
                &&& p@.len() + TAG_LEN == ciphertext@.len()
                &&& forall|q: Seq<u8>|
                    q.len() <= GCM_MAX_PLAINTEXT && #[trigger] gcm_sealed(key@, nonce@, q)
                        == ciphertext@ ==> q == p@
            },
            Err(_) => forall|q: Seq<u8>|
                q.len() <= GCM_MAX_PLAINTEXT ==> #[trigger] gcm_sealed(key@, nonce@, q)
                    != ciphertext@,
        },
{
    let cipher = Aes256Gcm::new(aes_gcm::Key::<Aes256Gcm>::from_slice(key));
    cipher.decrypt(aes_gcm::Nonce::from_slice(nonce), ciphertext).map_err(|_| ())
}

/// Encrypts `plaintext` under `key` and `nonce`; deterministic in the three.
///
/// The ciphertext carries its 16-byte tag and opens back to `plaintext`.
/// Fails with `EncryptionError` only above `GCM_MAX_PLAINTEXT` bytes.
pub fn encrypt(key: &[u8; 32], nonce: &[u8; 12], plaintext: &[u8]) -> (r: Result<
    Vec<u8>,
    CryptoErrorCode,
>)
    ensures
        r is Ok <==> plaintext@.len() <= GCM_MAX_PLAINTEXT,
        match r {
            Ok(c) => {
                &&& c@ == gcm_sealed(key@, nonce@, plaintext@)
                &&& c@.len() == plaintext@.len() + TAG_LEN
                &&& gcm_opened(key@, nonce@, c@) == Some(plaintext@)
            },
            Err(e) => e == CryptoErrorCode::EncryptionError,
        },
{
    match aes_gcm_seal(key, nonce, plaintext) {
        Ok(c) => Ok(c),
        Err(_) => Err(CryptoErrorCode::EncryptionError),
    }
}

/// Decrypts and authenticates `ciphertext` under `key` and `nonce`.
///
/// Returns the plaintext whose sealing is exactly `ciphertext`; any other
/// input (wrong key, wrong nonce, altered bytes, a length that no sealing
/// within `GCM_MAX_PLAINTEXT` has) fails with the one outcome
/// `AuthenticationFailed`, so that the causes cannot be told apart.
pub fn decrypt(key: &[u8; 32], nonce: &[u8; 12], ciphertext: &[u8]) -> (r: Result<
    Vec<u8>,
    CryptoErrorCode,
>)
    ensures
        ciphertext@.len() > GCM_MAX_PLAINTEXT + TAG_LEN ==> r == Err::<Vec<u8>, CryptoErrorCode>(
            CryptoErrorCode::AuthenticationFailed,
        ),
        ciphertext@.len() <= GCM_MAX_PLAINTEXT + TAG_LEN ==> match gcm_opened(
            key@,
            nonce@,
            ciphertext@,
        ) {
            Some(p) => r matches Ok(q) && q@ == p,
            None => r == Err::<Vec<u8>, CryptoErrorCode>(CryptoErrorCode::AuthenticationFailed),
        },
{
    if ciphertext.len() as u64 > GCM_MAX_PLAINTEXT + TAG_LEN as u64 {
        return Err(CryptoErrorCode::AuthenticationFailed);
    }
    match aes_gcm_open(key, nonce, ciphertext) {
        Ok(p) => Ok(p),
        Err(_) => Err(CryptoErrorCode::AuthenticationFailed),
    }
}

} // verus!
