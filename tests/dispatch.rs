use crypto_core::{
    decrypt_data, decrypt_data_embedded, decrypt_with_hardware, encrypt_data,
    encrypt_data_embedded, encrypt_with_hardware, CryptoErrorCode,
};

#[test]
fn test_encrypt_decrypt_roundtrip() {
    let data = b"Hello, CRUSTy-Core!";
    let password = b"secure_password";

    let mut encrypted = vec![0u8; 1024];
    let mut encrypted_len = 0;
    let result = encrypt_data(data, password, &mut encrypted, &mut encrypted_len);
    assert_eq!(result, CryptoErrorCode::Success);
    encrypted.truncate(encrypted_len);

    let mut decrypted = vec![0u8; 1024];
    let mut decrypted_len = 0;
    let result = decrypt_data(&encrypted, password, &mut decrypted, &mut decrypted_len);
    assert_eq!(result, CryptoErrorCode::Success);
    decrypted.truncate(decrypted_len);

    assert_eq!(decrypted, data);
}

#[test]
fn test_wrong_password() {
    let data = b"Hello, CRUSTy-Core!";
    let password = b"secure_password";
    let wrong_password = b"wrong_password";

    let mut encrypted = vec![0u8; 1024];
    let mut encrypted_len = 0;
    let result = encrypt_data(data, password, &mut encrypted, &mut encrypted_len);
    assert_eq!(result, CryptoErrorCode::Success);
    encrypted.truncate(encrypted_len);

    let mut decrypted = vec![0u8; 1024];
    let mut decrypted_len = 0;
    let result = decrypt_data(&encrypted, wrong_password, &mut decrypted, &mut decrypted_len);
    assert_eq!(result, CryptoErrorCode::AuthenticationFailed);
}

#[test]
fn encrypt_data_frames_a_fresh_envelope() {
    let data = b"Hello, CRUSTy-Core!";
    let mut a = vec![0u8; 1024];
    let mut b = vec![0u8; 1024];
    let mut la = 0usize;
    let mut lb = 0usize;
    assert_eq!(encrypt_data(data, b"pw", &mut a, &mut la), CryptoErrorCode::Success);
    assert_eq!(encrypt_data(data, b"pw", &mut b, &mut lb), CryptoErrorCode::Success);
    assert_eq!(la, 16 + data.len() + 16);
    assert_eq!(lb, la);
    assert_eq!(&a[12..16], &[0, 0, 0, (data.len() + 16) as u8]);
    assert_ne!(&a[..la], &b[..lb]);
    assert!(a[la..].iter().all(|&x| x == 0));
}

#[test]
fn encrypt_data_reports_required_size() {
    let data = vec![3u8; 100];
    let mut small = vec![0x66u8; 100];
    let mut len = 0usize;
    assert_eq!(
        encrypt_data(&data, b"pw", &mut small, &mut len),
        CryptoErrorCode::BufferTooSmall
    );
    assert_eq!(len, 132);
    assert!(small.iter().all(|&x| x == 0x66));
    let mut exact = vec![0u8; len];
    let mut len2 = 0usize;
    assert_eq!(encrypt_data(&data, b"pw", &mut exact, &mut len2), CryptoErrorCode::Success);
    assert_eq!(len2, len);
}

#[test]
fn decrypt_data_refuses_short_input() {
    for n in 0..16 {
        let data = vec![0u8; n];
        let mut out = vec![0x44u8; 32];
        let mut len = 7usize;
        assert_eq!(
            decrypt_data(&data, b"pw", &mut out, &mut len),
            CryptoErrorCode::InvalidParams
        );
        assert_eq!(len, 7);
        assert!(out.iter().all(|&x| x == 0x44));
        assert_eq!(
            decrypt_data_embedded(&data, b"pw", &mut out, &mut len),
            CryptoErrorCode::InvalidParams
        );
    }
}

#[test]
fn decrypt_data_refuses_lying_length() {
    let mut data = vec![0u8; 30];
    data[15] = 20;
    let mut out = vec![0u8; 32];
    let mut len = 0usize;
    assert_eq!(decrypt_data(&data, b"pw", &mut out, &mut len), CryptoErrorCode::InvalidParams);
}

#[test]
fn password_scenario_hello_core() {
    let data = b"Hello, Core!";
    let mut env = vec![0u8; 1024];
    let mut env_len = 0usize;
    assert_eq!(
        encrypt_data(data, b"secure_password", &mut env, &mut env_len),
        CryptoErrorCode::Success
    );
    assert_eq!(env_len, 44);
    env.truncate(env_len);
    let mut out = vec![0u8; 1024];
    let mut out_len = 0usize;
    assert_eq!(
        decrypt_data(&env, b"secure_password", &mut out, &mut out_len),
        CryptoErrorCode::Success
    );
    assert_eq!(out_len, 12);
    assert_eq!(&out[..out_len], &data[..]);
    let mut out2 = vec![0x77u8; 1024];
    let mut out2_len = 5usize;
    assert_eq!(
        decrypt_data(&env, b"wrong_password", &mut out2, &mut out2_len),
        CryptoErrorCode::AuthenticationFailed
    );
    assert_eq!(out2_len, 5);
    assert!(out2.iter().all(|&x| x == 0x77));
}

#[test]
fn decrypt_data_reports_plaintext_size() {
    let data = vec![0x3Cu8; 50];
    let mut env = vec![0u8; 82];
    let mut env_len = 0usize;
    assert_eq!(encrypt_data(&data, b"pw", &mut env, &mut env_len), CryptoErrorCode::Success);
    let mut small = vec![0x19u8; 49];
    let mut len = 0usize;
    assert_eq!(decrypt_data(&env, b"pw", &mut small, &mut len), CryptoErrorCode::BufferTooSmall);
    assert_eq!(len, 50);
    assert!(small.iter().all(|&x| x == 0x19));
    let mut large = vec![0u8; len];
    let mut len2 = 0usize;
    assert_eq!(decrypt_data(&env, b"pw", &mut large, &mut len2), CryptoErrorCode::Success);
    assert_eq!(len2, 50);
    assert_eq!(large, data);
}

#[test]
fn decrypt_data_rejects_tampered_envelope() {
    let data = b"Hello, Core!";
    let mut env = vec![0u8; 44];
    let mut env_len = 0usize;
    assert_eq!(encrypt_data(data, b"pw", &mut env, &mut env_len), CryptoErrorCode::Success);
    for i in [0usize, 11, 16, 27, 28, 43] {
        let mut t = env.clone();
        t[i] ^= 0x10;
        let mut out = vec![0u8; 64];
        let mut len = 0usize;
        assert_eq!(decrypt_data(&t, b"pw", &mut out, &mut len), CryptoErrorCode::AuthenticationFailed);
    }
}

#[test]
fn hardware_adapter_is_unavailable_and_inert() {
    let mut out = vec![0x12u8; 64];
    let mut len = 9usize;
    assert_eq!(
        encrypt_with_hardware(b"data", b"pw", &mut out, &mut len),
        Err(CryptoErrorCode::HardwareNotAvailable)
    );
    assert_eq!(
        decrypt_with_hardware(b"data", b"pw", &mut out, &mut len),
        Err(CryptoErrorCode::HardwareNotAvailable)
    );
    assert_eq!(len, 9);
    assert!(out.iter().all(|&x| x == 0x12));
}

#[test]
fn embedded_round_trip() {
    let data = b"Hello, CRUSTy-Core!";
    let mut env = vec![0u8; 1024];
    let mut env_len = 0usize;
    assert_eq!(
        encrypt_data_embedded(data, b"secure_password", &mut env, &mut env_len),
        CryptoErrorCode::Success
    );
    assert_eq!(env_len, 51);
    assert_eq!(&env[..12], &[113, 71, 29, 148, 236, 137, 147, 199, 68, 188, 216, 207]);
    let mut out = vec![0u8; 1024];
    let mut out_len = 0usize;
    assert_eq!(
        decrypt_data_embedded(&env[..env_len], b"secure_password", &mut out, &mut out_len),
        CryptoErrorCode::Success
    );
    assert_eq!(&out[..out_len], &data[..]);
}

#[test]
fn embedded_refuses_payload_over_working_capacity() {
    let data = vec![1u8; 2049];
    let mut out = vec![0x21u8; 4096];
    let mut len = 0usize;
    assert_eq!(
        encrypt_data_embedded(&data, b"pw", &mut out, &mut len),
        CryptoErrorCode::BufferTooSmall
    );
    assert_eq!(len, 2049 + 32);
    assert!(out.iter().all(|&x| x == 0x21));
    let fits = vec![1u8; 2048];
    assert_eq!(
        encrypt_data_embedded(&fits, b"pw", &mut out, &mut len),
        CryptoErrorCode::Success
    );
    assert_eq!(len, 2048 + 32);
}

#[test]
fn embedded_decrypt_refuses_ciphertext_over_working_capacity() {
    let mut env = vec![0u8; 16 + 2065];
    env[14] = 0x08;
    env[15] = 0x11;
    let mut out = vec![0x21u8; 16];
    let mut len = 0usize;
    assert_eq!(
        decrypt_data_embedded(&env, b"pw", &mut out, &mut len),
        CryptoErrorCode::BufferTooSmall
    );
    assert_eq!(len, 2049);
    assert!(out.iter().all(|&x| x == 0x21));
}
