use vstd::prelude::*;
use crate::error::CryptoErrorCode;

verus! {

/// Attempts encryption on an on-chip accelerator.
///
/// No accelerator is configured in this build, so the attempt always
/// reports `HardwareNotAvailable` (the signal to fall back to software) and
/// has no effect: nothing is written and nothing is consumed. A configured
/// accelerator would return `Ok` with its terminal outcome.
#[allow(unused_variables)]
pub fn encrypt_with_hardware(
    data: &[u8],
    password: &[u8],
    output: &mut [u8],
    output_len: &mut usize,
) -> (r: Result<CryptoErrorCode, CryptoErrorCode>)
    ensures
        r == Err::<CryptoErrorCode, CryptoErrorCode>(CryptoErrorCode::HardwareNotAvailable),
        final(output)@ == old(output)@,
        *final(output_len) == *old(output_len),
{
    Err(CryptoErrorCode::HardwareNotAvailable)
}

/// Attempts decryption on an on-chip accelerator; like
/// [`encrypt_with_hardware`], it reports `HardwareNotAvailable` and has no
/// effect in this build.
#[allow(unused_variables)]
pub fn decrypt_with_hardware(
    data: &[u8],
    password: &[u8],
    output: &mut [u8],
    output_len: &mut usize,
) -> (r: Result<CryptoErrorCode, CryptoErrorCode>)
    ensures
        r == Err::<CryptoErrorCode, CryptoErrorCode>(CryptoErrorCode::HardwareNotAvailable),
        final(output)@ == old(output)@,
        *final(output_len) == *old(output_len),
{
    Err(CryptoErrorCode::HardwareNotAvailable)
}

} // verus!
