use vstd::prelude::*;

verus! {

/// The closed set of outcomes of every entry point.
///
/// Each variant has a fixed integer code (see [`CryptoErrorCode::code`]) so
/// that it crosses a C boundary as a plain signed integer.
#[derive(Debug, Clone, Copy, PartialEq, Eq, Structural)]
pub enum CryptoErrorCode {
    /// The operation completed and its output was written.
    Success,
    /// Malformed, undersized or oversized input, or a caller error such as a
    /// wrongly sized fixed buffer.
    InvalidParams,
    /// The ciphertext did not authenticate: wrong password, or tampered or
    /// corrupted data (deliberately not told apart).
    AuthenticationFailed,
    /// The cipher failed for a reason not attributable to the input.
    EncryptionError,
    /// The cipher failed while decrypting for a reason not attributable to
    /// the input.
    DecryptionError,
    /// The password hashing or key derivation primitive failed.
    KeyDerivationError,
    /// The output capacity is too small; the required size is reported.
    BufferTooSmall,
    /// An unexpected failure, such as the random source being unavailable.
    InternalError,
    /// The hardware accelerator is absent; drives the software fallback.
    HardwareNotAvailable,
}

impl CryptoErrorCode {
    /// The stable integer code of each outcome.
    pub open spec fn spec_code(self) -> i32 {
        match self {
            CryptoErrorCode::Success => 0i32,
            CryptoErrorCode::InvalidParams => -1i32,
            CryptoErrorCode::AuthenticationFailed => -2i32,
            CryptoErrorCode::EncryptionError => -3i32,
            CryptoErrorCode::DecryptionError => -4i32,
            CryptoErrorCode::KeyDerivationError => -5i32,
            CryptoErrorCode::BufferTooSmall => -6i32,
            CryptoErrorCode::InternalError => -7i32,
            CryptoErrorCode::HardwareNotAvailable => -8i32,
        }
    }

    /// The integer that represents this outcome across a C boundary.
    #[verifier::when_used_as_spec(spec_code)]
    pub fn code(self) -> (r: i32)
        ensures
            r == self.spec_code(),
    {
        match self {
            CryptoErrorCode::Success => 0,
            CryptoErrorCode::InvalidParams => -1,
            CryptoErrorCode::AuthenticationFailed => -2,
            CryptoErrorCode::EncryptionError => -3,
            CryptoErrorCode::DecryptionError => -4,
            CryptoErrorCode::KeyDerivationError => -5,
            CryptoErrorCode::BufferTooSmall => -6,
            CryptoErrorCode::InternalError => -7,
            CryptoErrorCode::HardwareNotAvailable => -8,
        }
    }

    /// The outcome that an integer code stands for, if any.
    pub fn from_code(code: i32) -> (r: Option<CryptoErrorCode>)
        ensures
            match r {
                Some(e) => e.spec_code() == code,
                None => forall|e: CryptoErrorCode| e.spec_code() != code,
            },
    {
        match code {
            0 => Some(CryptoErrorCode::Success),
            -1 => Some(CryptoErrorCode::InvalidParams),
            -2 => Some(CryptoErrorCode::AuthenticationFailed),
            -3 => Some(CryptoErrorCode::EncryptionError),
            -4 => Some(CryptoErrorCode::DecryptionError),
            -5 => Some(CryptoErrorCode::KeyDerivationError),
            -6 => Some(CryptoErrorCode::BufferTooSmall),
            -7 => Some(CryptoErrorCode::InternalError),
            -8 => Some(CryptoErrorCode::HardwareNotAvailable),
            _ => None,
        }
    }
}

} // verus!
