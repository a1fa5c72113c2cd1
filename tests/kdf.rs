use crypto_core::{
    derive_key_from_password, derive_key_from_password_internal, get_random_bytes, hash_password,
    simple_key_derivation, write_c_string, hash_password_with_salt, CryptoErrorCode,
};

#[test]
fn derivation_is_deterministic() {
    let mut k1 = [0u8; 32];
    let mut k2 = [0xFFu8; 32];
    assert_eq!(
        derive_key_from_password(b"password", b"somesalt", &mut k1),
        CryptoErrorCode::Success
    );
    assert_eq!(
        derive_key_from_password(b"password", b"somesalt", &mut k2),
        CryptoErrorCode::Success
    );
    assert_eq!(k1, k2);
    assert_ne!(k1, [0u8; 32]);
    assert_ne!(&k1[..8], &b"password"[..]);
    assert_ne!(&k1[..8], &b"somesalt"[..]);
}

#[test]
fn derivation_depends_on_salt_and_password() {
    let mut k1 = [0u8; 32];
    let mut k2 = [0u8; 32];
    let mut k3 = [0u8; 32];
    derive_key_from_password(b"password", b"somesalt", &mut k1);
    derive_key_from_password(b"password", b"othersalt", &mut k2);
    derive_key_from_password(b"passwore", b"somesalt", &mut k3);
    assert_ne!(k1, k2);
    assert_ne!(k1, k3);
}

#[test]
fn derivation_refuses_wrong_key_length() {
    for len in [0usize, 16, 31, 33, 64] {
        let mut key = vec![0x77u8; len];
        assert_eq!(
            derive_key_from_password(b"password", b"somesalt", &mut key),
            CryptoErrorCode::InvalidParams
        );
        assert!(key.iter().all(|&b| b == 0x77));
    }
}

#[test]
fn derivation_refuses_short_salt() {
    let mut key = [0x77u8; 32];
    assert_eq!(
        derive_key_from_password(b"password", b"1234567", &mut key),
        CryptoErrorCode::KeyDerivationError
    );
    assert_eq!(key, [0x77u8; 32]);
    assert_eq!(
        derive_key_from_password(b"password", b"12345678", &mut key),
        CryptoErrorCode::Success
    );
}

#[test]
fn internal_derivation_is_salted_by_the_nonce() {
    let k1 = derive_key_from_password_internal(b"secure_password", &[1u8; 12]).unwrap();
    let k2 = derive_key_from_password_internal(b"secure_password", &[1u8; 12]).unwrap();
    let k3 = derive_key_from_password_internal(b"secure_password", &[2u8; 12]).unwrap();
    assert_eq!(k1, k2);
    assert_ne!(k1, k3);
    let mut k4 = [0u8; 32];
    derive_key_from_password(b"secure_password", &[1u8; 12], &mut k4);
    assert_eq!(k1, k4);
}

#[test]
fn hash_with_given_salt_is_deterministic() {
    let mut a = vec![0u8; 128];
    let mut b = vec![0u8; 128];
    assert_eq!(hash_password_with_salt(b"pw", &[7u8; 16], &mut a), CryptoErrorCode::Success);
    assert_eq!(hash_password_with_salt(b"pw", &[7u8; 16], &mut b), CryptoErrorCode::Success);
    assert_eq!(a, b);
    let text = std::str::from_utf8(&a[..a.iter().position(|&x| x == 0).unwrap()]).unwrap();
    assert!(text.starts_with("$argon2id$v=19$m=19456,t=2,p=1$BwcHBwcHBwcHBwcHBwcHBw$"));
}

#[test]
fn hash_password_writes_a_terminated_phc_string() {
    let mut out = vec![0xFFu8; 128];
    assert_eq!(hash_password(b"secure_password", &mut out), CryptoErrorCode::Success);
    let end = out.iter().position(|&b| b == 0).unwrap();
    let text = std::str::from_utf8(&out[..end]).unwrap();
    assert!(text.starts_with("$argon2id$v=19$m=19456,t=2,p=1$"));
    assert_eq!(text.split('$').count(), 6);
    assert!(out[end + 1..].iter().all(|&b| b == 0xFF));
}

#[test]
fn hash_password_uses_a_fresh_salt() {
    let mut a = vec![0u8; 128];
    let mut b = vec![0u8; 128];
    hash_password(b"secure_password", &mut a);
    hash_password(b"secure_password", &mut b);
    assert_ne!(a, b);
}

#[test]
fn hash_password_refuses_small_buffer() {
    let mut out = vec![0x55u8; 20];
    assert_eq!(hash_password(b"secure_password", &mut out), CryptoErrorCode::BufferTooSmall);
    assert!(out.iter().all(|&b| b == 0x55));
}

#[test]
fn c_string_needs_room_for_terminator() {
    let mut exact = [9u8; 3];
    assert_eq!(write_c_string(b"abc", &mut exact), CryptoErrorCode::BufferTooSmall);
    assert_eq!(exact, [9u8; 3]);
    let mut room = [9u8; 5];
    assert_eq!(write_c_string(b"abc", &mut room), CryptoErrorCode::Success);
    assert_eq!(room, [b'a', b'b', b'c', 0, 9]);
}

#[test]
fn simple_key_repeats_the_password() {
    let key = simple_key_derivation(b"abc").unwrap();
    for (i, &b) in key.iter().enumerate() {
        assert_eq!(b, b"abc"[i % 3]);
    }
    let long: Vec<u8> = (0..40u8).collect();
    assert_eq!(simple_key_derivation(&long).unwrap()[..], long[..32]);
}

#[test]
fn simple_key_of_empty_password_is_zero() {
    assert_eq!(simple_key_derivation(b"").unwrap(), [0u8; 32]);
}

#[test]
fn placeholder_generator_is_fixed_and_not_secure() {
    let mut a = [0u8; 12];
    let mut b = [0u8; 12];
    assert!(get_random_bytes(&mut a).is_ok());
    assert!(get_random_bytes(&mut b).is_ok());
    assert_eq!(a, [113, 71, 29, 148, 236, 137, 147, 199, 68, 188, 216, 207]);
    // the same bytes on every call: nonces drawn from it repeat
    assert_eq!(a, b);
    let mut empty: [u8; 0] = [];
    assert!(get_random_bytes(&mut empty).is_ok());
}
