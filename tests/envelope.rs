use crypto_core::{decode_envelope, encode_envelope, encoded_len, CryptoErrorCode, FormatError};

#[test]
fn encode_writes_nonce_length_and_ciphertext() {
    let nonce: [u8; 12] = [1, 2, 3, 4, 5, 6, 7, 8, 9, 10, 11, 12];
    let ciphertext: Vec<u8> = vec![0xAA; 300];
    let framed = encode_envelope(&nonce, &ciphertext);
    assert_eq!(framed.len(), 316);
    assert_eq!(&framed[0..12], &nonce[..]);
    assert_eq!(&framed[12..16], &[0x00, 0x00, 0x01, 0x2C]);
    assert_eq!(&framed[16..], &ciphertext[..]);
}

#[test]
fn encode_empty_ciphertext_is_header_only() {
    let nonce = [9u8; 12];
    let framed = encode_envelope(&nonce, &[]);
    assert_eq!(framed.len(), 16);
    assert_eq!(&framed[12..16], &[0, 0, 0, 0]);
}

#[test]
fn encoded_len_adds_header() {
    assert_eq!(encoded_len(0), Some(16));
    assert_eq!(encoded_len(35), Some(51));
    assert_eq!(encoded_len(0xFFFF_FFEF), Some(0xFFFF_FFFF));
    assert_eq!(encoded_len(0xFFFF_FFF0), None);
}

#[test]
fn decode_round_trips_encode() {
    let nonce: [u8; 12] = [12, 11, 10, 9, 8, 7, 6, 5, 4, 3, 2, 1];
    let ciphertext: Vec<u8> = (0..=255u8).collect();
    let framed = encode_envelope(&nonce, &ciphertext);
    let (n, c) = decode_envelope(&framed).unwrap();
    assert_eq!(n, nonce);
    assert_eq!(c, &ciphertext[..]);
}

#[test]
fn decode_rejects_fewer_than_sixteen_bytes() {
    for len in 0..16 {
        let bytes = vec![0u8; len];
        assert_eq!(decode_envelope(&bytes), Err(FormatError::TooShort));
    }
}

#[test]
fn decode_rejects_a_lying_length_field() {
    let mut bytes = vec![0u8; 20];
    bytes[15] = 5;
    assert_eq!(decode_envelope(&bytes), Err(FormatError::LengthMismatch));
    bytes[15] = 4;
    assert!(decode_envelope(&bytes).is_ok());
    bytes[12] = 0x80;
    assert_eq!(decode_envelope(&bytes), Err(FormatError::LengthMismatch));
}

#[test]
fn decode_ignores_bytes_after_the_declared_ciphertext() {
    let mut bytes = vec![7u8; 16];
    bytes[12] = 0;
    bytes[13] = 0;
    bytes[14] = 0;
    bytes[15] = 2;
    bytes.extend_from_slice(&[1, 2, 3, 4, 5]);
    let (n, c) = decode_envelope(&bytes).unwrap();
    assert_eq!(n, [7u8; 12]);
    assert_eq!(c, &[1, 2][..]);
}

#[test]
fn error_codes_are_stable() {
    assert_eq!(CryptoErrorCode::Success.code(), 0);
    assert_eq!(CryptoErrorCode::InvalidParams.code(), -1);
    assert_eq!(CryptoErrorCode::AuthenticationFailed.code(), -2);
    assert_eq!(CryptoErrorCode::EncryptionError.code(), -3);
    assert_eq!(CryptoErrorCode::DecryptionError.code(), -4);
    assert_eq!(CryptoErrorCode::KeyDerivationError.code(), -5);
    assert_eq!(CryptoErrorCode::BufferTooSmall.code(), -6);
    assert_eq!(CryptoErrorCode::InternalError.code(), -7);
    assert_eq!(CryptoErrorCode::HardwareNotAvailable.code(), -8);
}

#[test]
fn error_codes_read_back() {
    for code in -8..=0 {
        assert_eq!(CryptoErrorCode::from_code(code).unwrap().code(), code);
    }
    assert_eq!(CryptoErrorCode::from_code(1), None);
    assert_eq!(CryptoErrorCode::from_code(-9), None);
}
