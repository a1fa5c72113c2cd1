use vstd::prelude::*;
use crate::buffer::{overwrite_prefix, write_prefix};
use crate::cipher::{decrypt, encrypt, gcm_opened, gcm_sealed, TAG_LEN};
use crate::envelope::{decode, decode_envelope, encode_envelope, envelope, HEADER_LEN, NONCE_LEN};
use crate::error::CryptoErrorCode;
use crate::hardware::{decrypt_with_hardware, encrypt_with_hardware};
use crate::kdf::{
    argon2id_key, derive_key_from_password_internal, simple_key, simple_key_derivation,
    MAX_PASSWORD_LEN,
};
use crate::rng::{get_random_bytes, os_fill_random, placeholder_byte};

verus! {

/// The largest plaintext that fits an envelope whose total size still fits
/// the `u32` range: `u32::MAX` less the header and the tag.
pub const MAX_PAYLOAD_LEN: usize = 0xFFFF_FFDF;

/// The embedded profile's fixed working capacity for a plaintext, in bytes.
pub const EMBEDDED_MAX_PAYLOAD: usize = 2048;

/// The size of the envelope that sealing `data_len` plaintext bytes makes.
pub open spec fn sealed_len(data_len: int) -> int {
    HEADER_LEN + data_len + TAG_LEN
}

/// `env` is an envelope whose ciphertext the cipher opens back to `data`
/// under `key`.
pub open spec fn is_sealed_envelope(env: Seq<u8>, data: Seq<u8>, key: Seq<u8>) -> bool {
    exists|nonce: Seq<u8>, c: Seq<u8>|
        nonce.len() == NONCE_LEN && c.len() <= u32::MAX && env == envelope(nonce, c)
            && #[trigger] gcm_opened(key, nonce, c) == Some(data)
}

/// Sealing `data` under `key` and `nonce` yields a ciphertext one tag longer
/// than `data` that the cipher opens back to `data`.
pub open spec fn seals(data: Seq<u8>, key: Seq<u8>, nonce: Seq<u8>) -> bool {
    &&& gcm_sealed(key, nonce, data).len() == data.len() + TAG_LEN
    &&& gcm_opened(key, nonce, gcm_sealed(key, nonce, data)) == Some(data)
}

/// Status, output buffer and reported length after sealing `data` under
/// `key` and `nonce` into `output`.
pub open spec fn seal_outcome(
    data: Seq<u8>,
    key: Seq<u8>,
    nonce: Seq<u8>,
    output: Seq<u8>,
    output_len: int,
) -> (CryptoErrorCode, Seq<u8>, int) {
    if data.len() > MAX_PAYLOAD_LEN {
        (CryptoErrorCode::InvalidParams, output, output_len)
    } else if output.len() < sealed_len(data.len() as int) {
        (CryptoErrorCode::BufferTooSmall, output, sealed_len(data.len() as int))
    } else {
        (
            CryptoErrorCode::Success,
            overwrite_prefix(output, envelope(nonce, gcm_sealed(key, nonce, data))),
            sealed_len(data.len() as int),
        )
    }
}

/// The plaintext that an envelope opens to under `key`, or why it does not.
pub open spec fn open_result(env: Seq<u8>, key: Seq<u8>) -> Result<Seq<u8>, CryptoErrorCode> {
    match decode(env) {
        Err(_) => Err(CryptoErrorCode::InvalidParams),
        Ok((nonce, c)) => match gcm_opened(key, nonce, c) {
            Some(p) => Ok(p),
            None => Err(CryptoErrorCode::AuthenticationFailed),
        },
    }
}

/// Status, output buffer and reported length after opening `env` under
/// `key` into `output`.
pub open spec fn open_outcome(env: Seq<u8>, key: Seq<u8>, output: Seq<u8>, output_len: int) -> (
    CryptoErrorCode,
    Seq<u8>,
    int,
) {
    match open_result(env, key) {
        Err(e) => (e, output, output_len),
        Ok(p) => if output.len() < p.len() {
            (CryptoErrorCode::BufferTooSmall, output, p.len() as int)
        } else {
            (CryptoErrorCode::Success, overwrite_prefix(output, p), p.len() as int)
        },
    }
}

/// Encrypts `data` under `key` and `nonce` and frames the result into the
/// front of `output`, setting `output_len` to the envelope's size.
///
/// A payload over `MAX_PAYLOAD_LEN` gives `InvalidParams`. Where `output`
/// cannot hold the envelope, nothing is written, `BufferTooSmall` is
/// returned and `output_len` is set to the size needed.
pub fn seal_envelope(
    data: &[u8],
    key: &[u8; 32],
    nonce: &[u8; 12],
    output: &mut [u8],
    output_len: &mut usize,
) -> (r: CryptoErrorCode)
    ensures
        (r, final(output)@, *final(output_len) as int) == seal_outcome(
            data@,
            key@,
            nonce@,
            old(output)@,
            *old(output_len) as int,
        ),
        final(output)@.len() == old(output)@.len(),
        r == CryptoErrorCode::Success ==> seals(data@, key@, nonce@),
        r == CryptoErrorCode::Success ==> is_sealed_envelope(
            final(output)@.subrange(0, *final(output_len) as int),
            data@,
            key@,
        ),
{
    if data.len() > MAX_PAYLOAD_LEN {
        return CryptoErrorCode::InvalidParams;
    }
    let ciphertext = match encrypt(key, nonce, data) {
        Ok(c) => c,
        Err(e) => return e,
    };
    let required = HEADER_LEN + ciphertext.len();
    if output.len() < required {
        *output_len = required;
        return CryptoErrorCode::BufferTooSmall;
    }
    let framed = encode_envelope(nonce, ciphertext.as_slice());
    write_prefix(framed.as_slice(), output);
    *output_len = required;
    proof {
        assert(output@.subrange(0, required as int) =~= framed@);
        assert(gcm_opened(key@, nonce@, ciphertext@) == Some(data@));
    }
    CryptoErrorCode::Success
}

/// Unframes the envelope `env`, authenticates and decrypts its ciphertext
/// under `key`, and writes the plaintext to the front of `output`, setting
/// `output_len` to its size.
///
/// A malformed envelope gives `InvalidParams`, one that does not
/// authenticate gives `AuthenticationFailed`. Where `output` cannot hold the
/// plaintext, nothing is written, `BufferTooSmall` is returned and
/// `output_len` is set to the size needed.
pub fn open_envelope(env: &[u8], key: &[u8; 32], output: &mut [u8], output_len: &mut usize) -> (r:
    CryptoErrorCode)
    ensures
        (r, final(output)@, *final(output_len) as int) == open_outcome(
            env@,
            key@,
            old(output)@,
            *old(output_len) as int,
        ),
        final(output)@.len() == old(output)@.len(),
{
    let (nonce, ciphertext) = match decode_envelope(env) {
        Ok(parts) => parts,
        Err(_) => return CryptoErrorCode::InvalidParams,
    };
    let plaintext = match decrypt(key, &nonce, ciphertext) {
        Ok(p) => p,
        Err(e) => return e,
    };
    if output.len() < plaintext.len() {
        *output_len = plaintext.len();
        return CryptoErrorCode::BufferTooSmall;
    }
    write_prefix(plaintext.as_slice(), output);
    *output_len = plaintext.len();
    CryptoErrorCode::Success
}

/// What `encrypt_data` does once it has drawn `nonce`; the key is Argon2id
/// of the password under that nonce.
pub open spec fn encrypt_data_outcome(
    data: Seq<u8>,
    password: Seq<u8>,
    nonce: Seq<u8>,
    output: Seq<u8>,
    output_len: int,
) -> (CryptoErrorCode, Seq<u8>, int) {
    if data.len() > MAX_PAYLOAD_LEN {
        (CryptoErrorCode::InvalidParams, output, output_len)
    } else if password.len() > MAX_PASSWORD_LEN {
        (CryptoErrorCode::KeyDerivationError, output, output_len)
    } else {
        seal_outcome(data, argon2id_key(password, nonce), nonce, output, output_len)
    }
}

/// `encrypt_data`, having drawn `nonce`, succeeds, and its ciphertext opens
/// back to `data` under the key that the password and nonce give.
pub open spec fn encrypt_data_succeeded(
    data: Seq<u8>,
    password: Seq<u8>,
    nonce: Seq<u8>,
    output: Seq<u8>,
    output_len: int,
) -> bool {
    &&& encrypt_data_outcome(data, password, nonce, output, output_len).0
        == CryptoErrorCode::Success
    &&& seals(data, argon2id_key(password, nonce), nonce)
}

/// What `decrypt_data` does: it reads the nonce from the envelope and opens
/// the envelope under Argon2id of the password with that nonce as salt.
pub open spec fn decrypt_data_outcome(
    data: Seq<u8>,
    password: Seq<u8>,
    output: Seq<u8>,
    output_len: int,
) -> (CryptoErrorCode, Seq<u8>, int) {
    match decode(data) {
        Err(_) => (CryptoErrorCode::InvalidParams, output, output_len),
        Ok((nonce, c)) => if password.len() > MAX_PASSWORD_LEN {
            (CryptoErrorCode::KeyDerivationError, output, output_len)
        } else {
            open_outcome(data, argon2id_key(password, nonce), output, output_len)
        },
    }
}

/// Encrypts `data` under a password: draws a fresh random nonce from the
/// operating system, derives the key as Argon2id of `password` with that
/// nonce as salt, and writes the envelope
/// `[nonce:12][ciphertext_len:u32 BE][ciphertext]` to the front of `output`,
/// setting `output_len` to its size. [`decrypt_data`] derives the same key
/// from the password and the envelope's nonce.
///
/// Outcomes: `InvalidParams` for a payload over `MAX_PAYLOAD_LEN`,
/// `KeyDerivationError` for a password Argon2 refuses (both before anything
/// is drawn), `InternalError` when the random source fails, `BufferTooSmall`
/// (with the needed size reported and nothing written) and `Success`.
pub fn encrypt_data(data: &[u8], password: &[u8], output: &mut [u8], output_len: &mut usize) -> (r:
    CryptoErrorCode)
    ensures
        final(output)@.len() == old(output)@.len(),
        r == CryptoErrorCode::InternalError ==> {
            &&& data@.len() <= MAX_PAYLOAD_LEN
            &&& password@.len() <= MAX_PASSWORD_LEN
            &&& final(output)@ == old(output)@
            &&& *final(output_len) == *old(output_len)
        },
        r != CryptoErrorCode::InternalError ==> exists|nonce: Seq<u8>|
            nonce.len() == NONCE_LEN && (r, final(output)@, *final(output_len) as int)
                == #[trigger] encrypt_data_outcome(
                data@,
                password@,
                nonce,
                old(output)@,
                *old(output_len) as int,
            ) && (r == CryptoErrorCode::Success ==> encrypt_data_succeeded(
                data@,
                password@,
                nonce,
                old(output)@,
                *old(output_len) as int,
            )),
{
    let ghost any_nonce = Seq::new(NONCE_LEN as nat, |i: int| 0u8);
    if data.len() > MAX_PAYLOAD_LEN {
        assert(encrypt_data_outcome(data@, password@, any_nonce, old(output)@, *old(output_len) as int).0
            == CryptoErrorCode::InvalidParams);
        return CryptoErrorCode::InvalidParams;
    }
    if password.len() as u64 > MAX_PASSWORD_LEN {
        assert(encrypt_data_outcome(data@, password@, any_nonce, old(output)@, *old(output_len) as int).0
            == CryptoErrorCode::KeyDerivationError);
        return CryptoErrorCode::KeyDerivationError;
    }
    let mut nonce: [u8; 12] = [0u8; 12];
    if os_fill_random(&mut nonce).is_err() {
        return CryptoErrorCode::InternalError;
    }
    let key = match derive_key_from_password_internal(password, &nonce) {
        Ok(k) => k,
        Err(_) => return CryptoErrorCode::KeyDerivationError,
    };
    let r = seal_envelope(data, &key, &nonce, output, output_len);
    assert(encrypt_data_outcome(data@, password@, nonce@, old(output)@, *old(output_len) as int)
        == (r, output@, *output_len as int));
    r
}

/// Decrypts the envelope `data` under a password: derives the key as
/// Argon2id of `password` with the envelope's nonce as salt, and writes the
/// plaintext to the front of `output`, setting `output_len` to its size.
///
/// Outcomes: `InvalidParams` for fewer than 16 bytes or a length field that
/// claims more bytes than follow, both before any key is derived;
/// `KeyDerivationError` for a password Argon2 refuses;
/// `AuthenticationFailed` when the ciphertext does not authenticate under
/// the derived key; `BufferTooSmall` (with the plaintext size reported and
/// nothing written) and `Success`.
pub fn decrypt_data(data: &[u8], password: &[u8], output: &mut [u8], output_len: &mut usize) -> (r:
    CryptoErrorCode)
    ensures
        data@.len() < HEADER_LEN ==> r == CryptoErrorCode::InvalidParams && final(output)@ == old(
            output,
        )@ && *final(output_len) == *old(output_len),
        (r, final(output)@, *final(output_len) as int) == decrypt_data_outcome(
            data@,
            password@,
            old(output)@,
            *old(output_len) as int,
        ),
        final(output)@.len() == old(output)@.len(),
{
    if data.len() < HEADER_LEN {
        return CryptoErrorCode::InvalidParams;
    }
    let nonce = match decode_envelope(data) {
        Ok((n, _)) => n,
        Err(_) => return CryptoErrorCode::InvalidParams,
    };
    let key = match derive_key_from_password_internal(password, &nonce) {
        Ok(k) => k,
        Err(_) => return CryptoErrorCode::KeyDerivationError,
    };
    open_envelope(data, &key, output, output_len)
}

/// The nonce the embedded profile draws: the first twelve bytes of the
/// placeholder generator.
pub open spec fn placeholder_nonce() -> Seq<u8> {
    Seq::new(NONCE_LEN as nat, |i: int| placeholder_byte(i as nat))
}

/// What `encrypt_data_embedded` does.
pub open spec fn encrypt_embedded_outcome(
    data: Seq<u8>,
    password: Seq<u8>,
    output: Seq<u8>,
    output_len: int,
) -> (CryptoErrorCode, Seq<u8>, int) {
    if data.len() > MAX_PAYLOAD_LEN {
        (CryptoErrorCode::InvalidParams, output, output_len)
    } else if data.len() > EMBEDDED_MAX_PAYLOAD {
        (CryptoErrorCode::BufferTooSmall, output, sealed_len(data.len() as int))
    } else {
        seal_outcome(data, simple_key(password), placeholder_nonce(), output, output_len)
    }
}

/// `encrypt_data_embedded` succeeds and writes an envelope that opens back
/// to `data` under the key it derives from `password`.
pub open spec fn encrypt_embedded_succeeded(
    data: Seq<u8>,
    password: Seq<u8>,
    output: Seq<u8>,
    output_len: int,
) -> bool {
    let o = encrypt_embedded_outcome(data, password, output, output_len);
    &&& o.0 == CryptoErrorCode::Success
    &&& is_sealed_envelope(o.1.subrange(0, o.2), data, simple_key(password))
}

/// What `decrypt_data_embedded` does.
pub open spec fn decrypt_embedded_outcome(
    data: Seq<u8>,
    password: Seq<u8>,
    output: Seq<u8>,
    output_len: int,
) -> (CryptoErrorCode, Seq<u8>, int) {
    match decode(data) {
        Err(_) => (CryptoErrorCode::InvalidParams, output, output_len),
        Ok((nonce, c)) => if c.len() > EMBEDDED_MAX_PAYLOAD + TAG_LEN {
            (CryptoErrorCode::BufferTooSmall, output, c.len() - TAG_LEN)
        } else {
            open_outcome(data, simple_key(password), output, output_len)
        },
    }
}

/// The embedded profile of [`encrypt_data`]: after a hardware attempt, it
/// keys the cipher with [`simple_key_derivation`] and draws the nonce from
/// [`get_random_bytes`], within a fixed working capacity of
/// `EMBEDDED_MAX_PAYLOAD` plaintext bytes.
///
/// Both sources are placeholders and NOT SECURE: the key is the password
/// repeated and the nonce is the same on every call. A payload over the
/// working capacity gives `BufferTooSmall`, never a truncated envelope;
/// one over `MAX_PAYLOAD_LEN` gives `InvalidParams` as in the hosted profile.
pub fn encrypt_data_embedded(
    data: &[u8],
    password: &[u8],
    output: &mut [u8],
    output_len: &mut usize,
) -> (r: CryptoErrorCode)
    ensures
        (r, final(output)@, *final(output_len) as int) == encrypt_embedded_outcome(
            data@,
            password@,
            old(output)@,
            *old(output_len) as int,
        ),
        final(output)@.len() == old(output)@.len(),
        r == CryptoErrorCode::Success ==> encrypt_embedded_succeeded(
            data@,
            password@,
            old(output)@,
            *old(output_len) as int,
        ),
{
    if data.len() > MAX_PAYLOAD_LEN {
        return CryptoErrorCode::InvalidParams;
    }
    if let Ok(code) = encrypt_with_hardware(data, password, output, output_len) {
        return code;
    }
    if data.len() > EMBEDDED_MAX_PAYLOAD {
        *output_len = HEADER_LEN + data.len() + TAG_LEN;
        return CryptoErrorCode::BufferTooSmall;
    }
    let key = match simple_key_derivation(password) {
        Ok(k) => k,
        Err(_) => return CryptoErrorCode::KeyDerivationError,
    };
    let mut nonce: [u8; 12] = [0u8; 12];
    if get_random_bytes(&mut nonce).is_err() {
        return CryptoErrorCode::InternalError;
    }
    assert(nonce@ =~= placeholder_nonce());
    seal_envelope(data, &key, &nonce, output, output_len)
}

/// The embedded profile of [`decrypt_data`]: after a hardware attempt, it
/// keys the cipher with [`simple_key_derivation`], so an envelope from
/// [`encrypt_data_embedded`] opens with the same password.
///
/// Fewer than 16 bytes or a lying length field give `InvalidParams`; a
/// ciphertext whose plaintext would exceed the working capacity gives
/// `BufferTooSmall` with the plaintext size reported and nothing written.
pub fn decrypt_data_embedded(
    data: &[u8],
    password: &[u8],
    output: &mut [u8],
    output_len: &mut usize,
) -> (r: CryptoErrorCode)
    ensures
        (r, final(output)@, *final(output_len) as int) == decrypt_embedded_outcome(
            data@,
            password@,
            old(output)@,
            *old(output_len) as int,
        ),
        final(output)@.len() == old(output)@.len(),
{
    if data.len() < HEADER_LEN {
        return CryptoErrorCode::InvalidParams;
    }
    if let Ok(code) = decrypt_with_hardware(data, password, output, output_len) {
        return code;
    }
    let ciphertext_len = match decode_envelope(data) {
        Ok((_, c)) => c.len(),
        Err(_) => return CryptoErrorCode::InvalidParams,
    };
    if ciphertext_len > EMBEDDED_MAX_PAYLOAD + TAG_LEN {
        *output_len = ciphertext_len - TAG_LEN;
        return CryptoErrorCode::BufferTooSmall;
    }
    let key = match simple_key_derivation(password) {
        Ok(k) => k,
        Err(_) => return CryptoErrorCode::KeyDerivationError,
    };
    open_envelope(data, &key, output, output_len)
}

} // verus!
