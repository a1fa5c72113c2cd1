use vstd::prelude::*;
use crate::buffer::overwrite_prefix;
use crate::cipher::{gcm_opened, gcm_sealed, KEY_LEN};
use crate::dispatch::{
    decrypt_data_outcome, decrypt_embedded_outcome, encrypt_data_outcome, encrypt_data_succeeded,
    encrypt_embedded_outcome, encrypt_embedded_succeeded, is_sealed_envelope, open_outcome,
    open_result, seal_outcome,
};
use crate::envelope::{decode, envelope, lemma_decode_envelope, HEADER_LEN, NONCE_LEN};
use crate::error::CryptoErrorCode;
use crate::kdf::{argon2id_key, derive_key_outcome, simple_key};

verus! {

/// Round trip: an envelope whose ciphertext the cipher opens back to `data`
/// under `key` decrypts under `key` to exactly `data`, written to the front
/// of any output buffer that can hold it.
pub proof fn lemma_round_trip(
    data: Seq<u8>,
    key: Seq<u8>,
    env: Seq<u8>,
    output: Seq<u8>,
    output_len: int,
)
    requires
        is_sealed_envelope(env, data, key),
        output.len() >= data.len(),
    ensures
        open_result(env, key) == Ok::<Seq<u8>, CryptoErrorCode>(data),
        open_outcome(env, key, output, output_len) == (
            CryptoErrorCode::Success,
            overwrite_prefix(output, data),
            data.len() as int,
        ),
{
    let (nonce, c) = choose|nonce: Seq<u8>, c: Seq<u8>|
        nonce.len() == 12 && c.len() <= u32::MAX && env == envelope(nonce, c)
            && #[trigger] gcm_opened(key, nonce, c) == Some(data);
    lemma_decode_envelope(nonce, c);
}

/// Round trip of the password entry points: what `encrypt_data` writes
/// decrypts with `decrypt_data` under the same password to exactly the data
/// it sealed, into any output buffer that can hold it.
pub proof fn lemma_round_trip_password(
    data: Seq<u8>,
    password: Seq<u8>,
    nonce: Seq<u8>,
    before: Seq<u8>,
    before_len: int,
    output: Seq<u8>,
    output_len: int,
)
    requires
        nonce.len() == NONCE_LEN,
        encrypt_data_succeeded(data, password, nonce, before, before_len),
        output.len() >= data.len(),
    ensures
        ({
            let o = encrypt_data_outcome(data, password, nonce, before, before_len);
            decrypt_data_outcome(o.1.subrange(0, o.2), password, output, output_len) == (
                CryptoErrorCode::Success,
                overwrite_prefix(output, data),
                data.len() as int,
            )
        }),
{
    let o = encrypt_data_outcome(data, password, nonce, before, before_len);
    let key = argon2id_key(password, nonce);
    let c = gcm_sealed(key, nonce, data);
    assert(o.1.subrange(0, o.2) =~= envelope(nonce, c));
    lemma_decode_envelope(nonce, c);
}

/// Round trip of the embedded profile: what `encrypt_data_embedded` writes
/// decrypts with `decrypt_data_embedded` under the same password to exactly
/// the data it sealed.
pub proof fn lemma_round_trip_embedded(
    data: Seq<u8>,
    password: Seq<u8>,
    before: Seq<u8>,
    before_len: int,
    output: Seq<u8>,
    output_len: int,
)
    requires
        encrypt_embedded_succeeded(data, password, before, before_len),
        output.len() >= data.len(),
    ensures
        ({
            let o = encrypt_embedded_outcome(data, password, before, before_len);
            decrypt_embedded_outcome(o.1.subrange(0, o.2), password, output, output_len) == (
                CryptoErrorCode::Success,
                overwrite_prefix(output, data),
                data.len() as int,
            )
        }),
{
    let o = encrypt_embedded_outcome(data, password, before, before_len);
    let env = o.1.subrange(0, o.2);
    let key = simple_key(password);
    let (nonce, c) = choose|nonce: Seq<u8>, c: Seq<u8>|
        nonce.len() == 12 && c.len() <= u32::MAX && env == envelope(nonce, c)
            && #[trigger] gcm_opened(key, nonce, c) == Some(data);
    lemma_decode_envelope(nonce, c);
    lemma_round_trip(data, key, env, output, output_len);
}

/// Tampering: changing any one byte of a sealed envelope's ciphertext region
/// never makes it decrypt to the data it sealed. (It decrypts, if at all, only
/// to the unique plaintext whose sealing is the altered bytes.)
pub proof fn lemma_tampered_envelope_never_yields_sealed_data(
    data: Seq<u8>,
    key: Seq<u8>,
    env: Seq<u8>,
    i: int,
    b: u8,
)
    requires
        is_sealed_envelope(env, data, key),
        HEADER_LEN <= i < env.len(),
        b != env[i],
    ensures
        open_result(env.update(i, b), key) != Ok::<Seq<u8>, CryptoErrorCode>(data),
{
    let (nonce, c) = choose|nonce: Seq<u8>, c: Seq<u8>|
        nonce.len() == 12 && c.len() <= u32::MAX && env == envelope(nonce, c)
            && #[trigger] gcm_opened(key, nonce, c) == Some(data);
    let c2 = c.update(i - HEADER_LEN, b);
    assert(env.update(i, b) =~= envelope(nonce, c2));
    lemma_decode_envelope(nonce, c2);
    assert(c2[i - HEADER_LEN] != c[i - HEADER_LEN]);
}

/// Tampering with what `encrypt_data` wrote: changing any one byte of the
/// ciphertext region never makes `decrypt_data`, under the same password,
/// report success with the data that was sealed.
pub proof fn lemma_tampered_password_envelope(
    data: Seq<u8>,
    password: Seq<u8>,
    nonce: Seq<u8>,
    before: Seq<u8>,
    before_len: int,
    i: int,
    b: u8,
    output: Seq<u8>,
    output_len: int,
)
    requires
        nonce.len() == NONCE_LEN,
        encrypt_data_succeeded(data, password, nonce, before, before_len),
        HEADER_LEN <= i < encrypt_data_outcome(data, password, nonce, before, before_len).2,
        b != encrypt_data_outcome(data, password, nonce, before, before_len).1[i],
    ensures
        ({
            let o = encrypt_data_outcome(data, password, nonce, before, before_len);
            decrypt_data_outcome(o.1.subrange(0, o.2).update(i, b), password, output, output_len)
                != (CryptoErrorCode::Success, overwrite_prefix(output, data), data.len() as int)
        }),
{
    let o = encrypt_data_outcome(data, password, nonce, before, before_len);
    let key = argon2id_key(password, nonce);
    let c = gcm_sealed(key, nonce, data);
    let env = o.1.subrange(0, o.2);
    assert(env =~= envelope(nonce, c));
    assert(is_sealed_envelope(env, data, key));
    lemma_tampered_envelope_never_yields_sealed_data(data, key, env, i, b);
    let env2 = env.update(i, b);
    let c2 = c.update(i - HEADER_LEN, b);
    assert(env2 =~= envelope(nonce, c2));
    lemma_decode_envelope(nonce, c2);
    if decrypt_data_outcome(env2, password, output, output_len) == (
        CryptoErrorCode::Success,
        overwrite_prefix(output, data),
        data.len() as int,
    ) {
        let p = open_result(env2, key)->Ok_0;
        assert(p.len() == data.len());
        assert(p =~= overwrite_prefix(output, p).subrange(0, p.len() as int));
        assert(data =~= overwrite_prefix(output, data).subrange(0, data.len() as int));
    }
}

/// Capacity reporting when sealing: a call refused for capacity writes
/// nothing, and the size it reports is exactly the envelope size that a call
/// with that much room produces.
pub proof fn lemma_seal_reports_required_len(
    data: Seq<u8>,
    key: Seq<u8>,
    nonce: Seq<u8>,
    small: Seq<u8>,
    small_len: int,
    large: Seq<u8>,
    large_len: int,
)
    requires
        seal_outcome(data, key, nonce, small, small_len).0 == CryptoErrorCode::BufferTooSmall,
        large.len() >= seal_outcome(data, key, nonce, small, small_len).2,
    ensures
        seal_outcome(data, key, nonce, small, small_len).1 == small,
        seal_outcome(data, key, nonce, large, large_len).0 == CryptoErrorCode::Success,
        seal_outcome(data, key, nonce, large, large_len).2 == seal_outcome(
            data,
            key,
            nonce,
            small,
            small_len,
        ).2,
{
}

/// Capacity reporting of `encrypt_data`: a call refused for capacity writes
/// nothing, and the size it reports is exactly the envelope size that a
/// call with that much room produces, whatever nonce that call draws.
pub proof fn lemma_encrypt_data_reports_required_len(
    data: Seq<u8>,
    password: Seq<u8>,
    nonce: Seq<u8>,
    small: Seq<u8>,
    small_len: int,
    nonce2: Seq<u8>,
    large: Seq<u8>,
    large_len: int,
)
    requires
        encrypt_data_outcome(data, password, nonce, small, small_len).0
            == CryptoErrorCode::BufferTooSmall,
        large.len() >= encrypt_data_outcome(data, password, nonce, small, small_len).2,
    ensures
        encrypt_data_outcome(data, password, nonce, small, small_len).1 == small,
        encrypt_data_outcome(data, password, nonce2, large, large_len).0
            == CryptoErrorCode::Success,
        encrypt_data_outcome(data, password, nonce2, large, large_len).2
            == encrypt_data_outcome(data, password, nonce, small, small_len).2,
{
}

/// Capacity reporting when opening: a call refused for capacity writes
/// nothing, and the size it reports is exactly the plaintext size that a
/// call with that much room produces.
pub proof fn lemma_open_reports_required_len(
    env: Seq<u8>,
    key: Seq<u8>,
    small: Seq<u8>,
    small_len: int,
    large: Seq<u8>,
    large_len: int,
)
    requires
        open_outcome(env, key, small, small_len).0 == CryptoErrorCode::BufferTooSmall,
        large.len() >= open_outcome(env, key, small, small_len).2,
    ensures
        open_outcome(env, key, small, small_len).1 == small,
        open_outcome(env, key, large, large_len).0 == CryptoErrorCode::Success,
        open_outcome(env, key, large, large_len).2 == open_outcome(env, key, small, small_len).2,
{
}

/// Capacity reporting of `decrypt_data`: a call refused for capacity writes
/// nothing, and the size it reports is exactly the plaintext size that a
/// call with that much room produces.
pub proof fn lemma_decrypt_data_reports_required_len(
    data: Seq<u8>,
    password: Seq<u8>,
    small: Seq<u8>,
    small_len: int,
    large: Seq<u8>,
    large_len: int,
)
    requires
        decrypt_data_outcome(data, password, small, small_len).0 == CryptoErrorCode::BufferTooSmall,
        large.len() >= decrypt_data_outcome(data, password, small, small_len).2,
    ensures
        decrypt_data_outcome(data, password, small, small_len).1 == small,
        decrypt_data_outcome(data, password, large, large_len).0 == CryptoErrorCode::Success,
        decrypt_data_outcome(data, password, large, large_len).2 == decrypt_data_outcome(
            data,
            password,
            small,
            small_len,
        ).2,
{
}

/// Deterministic derivation: two calls of `derive_key_from_password` with the
/// same password and salt and a 32-byte key buffer give the same outcome,
/// and where they succeed the same key, whatever the buffers held before.
pub proof fn lemma_derivation_is_deterministic(
    password: Seq<u8>,
    salt: Seq<u8>,
    key1: Seq<u8>,
    key2: Seq<u8>,
)
    requires
        key1.len() == KEY_LEN,
        key2.len() == KEY_LEN,
    ensures
        derive_key_outcome(password, salt, key1).0 == derive_key_outcome(password, salt, key2).0,
        derive_key_outcome(password, salt, key1).0 == CryptoErrorCode::Success ==> derive_key_outcome(
            password,
            salt,
            key1,
        ).1 == derive_key_outcome(password, salt, key2).1,
{
}

/// Any key buffer whose length is not 32 is refused with `InvalidParams` and
/// left as it was.
pub proof fn lemma_derivation_refuses_key_len(password: Seq<u8>, salt: Seq<u8>, key: Seq<u8>)
    requires
        key.len() != KEY_LEN,
    ensures
        derive_key_outcome(password, salt, key) == (CryptoErrorCode::InvalidParams, key),
{
}

/// An input shorter than the header is refused with `InvalidParams`, and
/// nothing is written, by both decryption entry points.
pub proof fn lemma_short_input_refused(
    data: Seq<u8>,
    password: Seq<u8>,
    output: Seq<u8>,
    output_len: int,
)
    requires
        data.len() < HEADER_LEN,
    ensures
        decrypt_data_outcome(data, password, output, output_len) == (
            CryptoErrorCode::InvalidParams,
            output,
            output_len,
        ),
        decrypt_embedded_outcome(data, password, output, output_len) == (
            CryptoErrorCode::InvalidParams,
            output,
            output_len,
        ),
{
    assert(decode(data) is Err);
}

} // verus!
