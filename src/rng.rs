use vstd::prelude::*;
use rand::RngCore;

verus! {

/// Relies on rand's `OsRng` through `RngCore::try_fill_bytes`: it fills the
/// buffer from the operating system's generator, or reports that it could
/// not. Nothing is known of the bytes.
#[verifier::external_body]
pub(crate) fn os_fill_random(buf: &mut [u8]) -> (r: Result<(), ()>)
    ensures
        final(buf)@.len() == old(buf)@.len(),
{
    rand::rngs::OsRng.try_fill_bytes(buf).map_err(|_| ())
}

/// Seed of the placeholder generator.
pub const PLACEHOLDER_SEED: u32 = 0x1234_5678;

/// State of the placeholder generator after `n` steps of the linear
/// congruential recurrence `s' = s * 1103515245 + 12345 (mod 2^32)`.
pub open spec fn placeholder_state(n: nat) -> u32
    decreases n,
{
    if n == 0 {
        PLACEHOLDER_SEED
    } else {
        ((placeholder_state((n - 1) as nat) as int * 1103515245 + 12345) % 0x1_0000_0000) as u32
    }
}

/// The `i`-th byte the placeholder generator emits: bits 16 to 23 of its
/// state after `i + 1` steps.
pub open spec fn placeholder_byte(i: nat) -> u8 {
    ((placeholder_state(i + 1) >> 16) & 0xff) as u8
}

/// Fills `buffer` from the embedded profile's placeholder generator.
///
/// NOT CRYPTOGRAPHICALLY SECURE: a linear congruential generator that
/// restarts from a fixed seed on every call, so every call yields the same
/// bytes. Nonces drawn from it repeat; callers without a verified hardware
/// generator get no confidentiality guarantee from them.
pub fn get_random_bytes(buffer: &mut [u8]) -> (r: Result<(), ()>)
    ensures
        r is Ok,
        final(buffer)@.len() == old(buffer)@.len(),
        forall|i: int| 0 <= i < final(buffer)@.len() ==> #[trigger] final(buffer)@[i] == placeholder_byte(i as nat),
{
    let mut state: u32 = PLACEHOLDER_SEED;
    let n = buffer.len();
    let mut i: usize = 0;
    while i < n
        invariant
            n == buffer@.len(),
            n == old(buffer)@.len(),
            i <= n,
            state == placeholder_state(i as nat),
            forall|k: int| 0 <= k < i ==> #[trigger] buffer@[k] == placeholder_byte(k as nat),
        decreases n - i,
    {
        let next: u64 = (state as u64 * 1103515245 + 12345) % 0x1_0000_0000;
        state = next as u32;
        buffer[i] = ((state >> 16) & 0xff) as u8;
        i = i + 1;
    }
    Ok(())
}

} // verus!
