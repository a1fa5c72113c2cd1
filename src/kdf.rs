use vstd::prelude::*;
use argon2::password_hash::{PasswordHasher, SaltString};
use argon2::Argon2;
use crate::buffer::{overwrite_prefix, write_prefix};
use crate::cipher::KEY_LEN;
use crate::error::CryptoErrorCode;
use crate::rng::os_fill_random;

verus! {

/// The longest password Argon2 takes, in bytes.
pub const MAX_PASSWORD_LEN: u64 = 0xFFFF_FFFF;

/// The shortest salt Argon2 takes, in bytes.
pub const MIN_SALT_LEN: u64 = 8;

/// The longest salt Argon2 takes, in bytes.
pub const MAX_SALT_LEN: u64 = 0xFFFF_FFFF;

/// Bytes of the random salt drawn for each password hash.
pub const HASH_SALT_LEN: usize = 16;

/// The 32-byte key that Argon2id with its default cost parameters derives
/// from `password` and `salt`.
pub uninterp spec fn argon2id_key(password: Seq<u8>, salt: Seq<u8>) -> Seq<u8>;

/// The PHC string (algorithm, version, parameters, salt and hash) that
/// Argon2id with its default cost parameters makes of `password` under the
/// raw salt bytes `salt`.
pub uninterp spec fn argon2id_phc(password: Seq<u8>, salt: Seq<u8>) -> Seq<char>;

/// Whether Argon2 accepts a password and a salt of these lengths.
pub open spec fn argon2_accepts(password_len: int, salt_len: int) -> bool {
    &&& password_len <= MAX_PASSWORD_LEN
    &&& MIN_SALT_LEN <= salt_len <= MAX_SALT_LEN
}

/// Relies on argon2's `Argon2::hash_password_into` with `Argon2::default()`
/// (Argon2id, version 19, default costs) into a 32-byte output. Its only
/// failures are the length checks of `verify_inputs`.
#[verifier::external_body]
fn argon2id_raw(password: &[u8], salt: &[u8]) -> (r: Result<[u8; 32], ()>)
    ensures
        r is Ok <==> argon2_accepts(password@.len() as int, salt@.len() as int),
        r matches Ok(k) ==> k@ == argon2id_key(password@, salt@),
{
    let mut key = [0u8; 32];
    Argon2::default().hash_password_into(password, salt, &mut key).map(|_| key).map_err(|_| ())
}

/// Relies on password_hash's `SaltString::encode_b64` (16 bytes give 22 B64
/// characters, within its 64-character limit) and argon2's
/// `PasswordHasher::hash_password` with `Argon2::default()`, displayed as a
/// PHC string. With such a salt its only failure is the password length
/// check of `verify_inputs`.
#[verifier::external_body]
fn argon2id_hash_string(password: &[u8], salt: &[u8; 16]) -> (r: Result<String, ()>)
    ensures
        r is Ok <==> password@.len() <= MAX_PASSWORD_LEN,
        r matches Ok(h) ==> h@ == argon2id_phc(password@, salt@),
{
    let salt = SaltString::encode_b64(salt).map_err(|_| ())?;
    let hash = Argon2::default().hash_password(password, &salt).map_err(|_| ())?;
    Ok(hash.to_string())
}

/// What `derive_key_from_password` returns and leaves in its key buffer,
/// given the buffer as it was.
pub open spec fn derive_key_outcome(password: Seq<u8>, salt: Seq<u8>, key: Seq<u8>) -> (
    CryptoErrorCode,
    Seq<u8>,
) {
    if key.len() != KEY_LEN {
        (CryptoErrorCode::InvalidParams, key)
    } else if !argon2_accepts(password.len() as int, salt.len() as int) {
        (CryptoErrorCode::KeyDerivationError, key)
    } else {
        (CryptoErrorCode::Success, argon2id_key(password, salt))
    }
}

/// Derives a 32-byte key from `password` and a caller-managed `salt` into
/// `key`, reproducibly: the same password and salt always give the same key.
///
/// A `key` buffer of any length other than 32 is refused with
/// `InvalidParams`; a password or salt that Argon2 refuses gives
/// `KeyDerivationError`. On failure `key` is left untouched.
pub fn derive_key_from_password(password: &[u8], salt: &[u8], key: &mut [u8]) -> (r:
    CryptoErrorCode)
    ensures
        (r, final(key)@) == derive_key_outcome(password@, salt@, old(key)@),
        final(key)@.len() == old(key)@.len(),
{
    if key.len() != KEY_LEN {
        return CryptoErrorCode::InvalidParams;
    }
    match argon2id_raw(password, salt) {
        Ok(derived) => {
            write_prefix(&derived, key);
            assert(key@ =~= argon2id_key(password@, salt@));
            CryptoErrorCode::Success
        },
        Err(_) => CryptoErrorCode::KeyDerivationError,
    }
}

/// Derives the key that seals or opens an envelope: Argon2id of `password`
/// under the envelope's nonce as salt. A fresh random nonce per encryption
/// gives a fresh key per encryption, and the envelope carries what the
/// recipient needs to derive it again.
///
/// It fails only for a password longer than Argon2 takes.
pub fn derive_key_from_password_internal(password: &[u8], nonce: &[u8; 12]) -> (r: Result<
    [u8; 32],
    (),
>)
    ensures
        r is Ok <==> password@.len() <= MAX_PASSWORD_LEN,
        r matches Ok(k) ==> k@ == argon2id_key(password@, nonce@),
{
    argon2id_raw(password, nonce)
}

/// The outcome of writing `text` and a terminating zero byte into `output`.
pub open spec fn c_string_outcome(text: Seq<u8>, output: Seq<u8>) -> (CryptoErrorCode, Seq<u8>) {
    if output.len() < text.len() + 1 {
        (CryptoErrorCode::BufferTooSmall, output)
    } else {
        (CryptoErrorCode::Success, overwrite_prefix(output, text.push(0u8)))
    }
}

/// Writes `text` followed by a zero byte to the front of `output`, or
/// nothing at all when that does not fit.
pub fn write_c_string(text: &[u8], output: &mut [u8]) -> (r: CryptoErrorCode)
    ensures
        (r, final(output)@) == c_string_outcome(text@, old(output)@),
{
    if output.len() <= text.len() {
        return CryptoErrorCode::BufferTooSmall;
    }
    write_prefix(text, output);
    let n = text.len();
    output[n] = 0u8;
    assert(output@ =~= overwrite_prefix(old(output)@, text@.push(0u8)));
    CryptoErrorCode::Success
}

/// What `hash_password_with_salt` returns and leaves in `output`.
pub open spec fn hash_outcome(password: Seq<u8>, salt: Seq<u8>, output: Seq<u8>) -> (
    CryptoErrorCode,
    Seq<u8>,
) {
    if password.len() > MAX_PASSWORD_LEN {
        (CryptoErrorCode::KeyDerivationError, output)
    } else {
        c_string_outcome(vstd::utf8::encode_utf8(argon2id_phc(password, salt)), output)
    }
}

/// Hashes `password` with Argon2id under the given 16-byte salt and writes
/// the storable PHC string, zero-terminated, to `output`.
///
/// A password Argon2 refuses gives `KeyDerivationError`; a string and
/// terminator that do not fit give `BufferTooSmall`. On failure `output` is
/// left untouched.
pub fn hash_password_with_salt(password: &[u8], salt: &[u8; 16], output: &mut [u8]) -> (r:
    CryptoErrorCode)
    ensures
        (r, final(output)@) == hash_outcome(password@, salt@, old(output)@),
{
    let hash = match argon2id_hash_string(password, salt) {
        Ok(h) => h,
        Err(_) => return CryptoErrorCode::KeyDerivationError,
    };
    let text = hash.as_str().as_bytes();
    write_c_string(text, output)
}

/// Hashes `password` with Argon2id under a fresh random salt from the
/// operating system and writes the storable PHC string, zero-terminated, to
/// `output` (see [`hash_password_with_salt`]).
///
/// `InternalError` when the random source fails; otherwise
/// `KeyDerivationError` exactly for a password Argon2 refuses, then
/// `BufferTooSmall` or `Success`. On failure `output` is left untouched.
pub fn hash_password(password: &[u8], output: &mut [u8]) -> (r: CryptoErrorCode)
    ensures
        r == CryptoErrorCode::InternalError ==> final(output)@ == old(output)@,
        r != CryptoErrorCode::InternalError ==> exists|salt: Seq<u8>|
            salt.len() == HASH_SALT_LEN && (r, final(output)@) == #[trigger] hash_outcome(
                password@,
                salt,
                old(output)@,
            ),
        r == CryptoErrorCode::KeyDerivationError <==> (r != CryptoErrorCode::InternalError
            && password@.len() > MAX_PASSWORD_LEN),
{
    let mut salt: [u8; 16] = [0u8; 16];
    if os_fill_random(&mut salt).is_err() {
        return CryptoErrorCode::InternalError;
    }
    let r = hash_password_with_salt(password, &salt, output);
    assert((r, output@) == hash_outcome(password@, salt@, old(output)@));
    r
}

/// The key the embedded profile derives: the password repeated to fill 32
/// bytes, or all zeros for an empty password.
pub open spec fn simple_key(password: Seq<u8>) -> Seq<u8> {
    Seq::new(
        KEY_LEN as nat,
        |i: int|
            if password.len() == 0 {
                0u8
            } else {
                password[i % password.len() as int]
            },
    )
}

/// The embedded profile's placeholder key derivation: repeats the password
/// to fill the key. It is no password hash and offers no resistance to
/// guessing.
pub fn simple_key_derivation(password: &[u8]) -> (r: Result<[u8; 32], ()>)
    ensures
        r matches Ok(k) && k@ == simple_key(password@),
{
    let mut key: [u8; 32] = [0u8; 32];
    let n = password.len();
    if n > 0 {
        let mut i: usize = 0;
        while i < KEY_LEN
            invariant
                n == password@.len(),
                n > 0,
                i <= KEY_LEN,
                forall|k: int| 0 <= k < i ==> key@[k] == password@[k % n as int],
            decreases KEY_LEN - i,
        {
            key[i] = password[i % n];
            i = i + 1;
        }
    }
    assert(key@ =~= simple_key(password@));
    Ok(key)
}

} // verus!
