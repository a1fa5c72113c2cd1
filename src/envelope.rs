use vstd::prelude::*;

verus! {

/// Bytes of the nonce at the head of an envelope.
pub const NONCE_LEN: usize = 12;

/// Bytes of the big-endian ciphertext length that follows the nonce.
pub const LENGTH_FIELD_LEN: usize = 4;

/// Bytes before the ciphertext: nonce and length field.
pub const HEADER_LEN: usize = 16;

/// The four big-endian bytes of `n`.
pub open spec fn be32_bytes(n: u32) -> Seq<u8> {
    seq![
        (n / 0x100_0000) as u8,
        (n / 0x1_0000 % 0x100) as u8,
        (n / 0x100 % 0x100) as u8,
        (n % 0x100) as u8,
    ]
}

/// The number that four big-endian bytes stand for.
pub open spec fn be32_value(b: Seq<u8>) -> int {
    b[0] * 0x100_0000 + b[1] * 0x1_0000 + b[2] * 0x100 + b[3]
}

/// The envelope that carries `ciphertext` under `nonce`.
pub open spec fn envelope(nonce: Seq<u8>, ciphertext: Seq<u8>) -> Seq<u8> {
    nonce + be32_bytes(ciphertext.len() as u32) + ciphertext
}

/// The ciphertext length that an envelope's header declares.
pub open spec fn declared_len(bytes: Seq<u8>) -> int {
    be32_value(bytes.subrange(NONCE_LEN as int, HEADER_LEN as int))
}

/// Why bytes do not decode as an envelope.
#[derive(Debug, Clone, Copy, PartialEq, Eq, Structural)]
pub enum FormatError {
    /// Fewer bytes than the nonce and length field need.
    TooShort,
    /// Fewer bytes follow the header than its length field declares.
    LengthMismatch,
}

/// What decoding `bytes` yields: the nonce and the declared ciphertext, or
/// why it fails. Bytes after the declared ciphertext are not read.
pub open spec fn decode(bytes: Seq<u8>) -> Result<(Seq<u8>, Seq<u8>), FormatError> {
    if bytes.len() < HEADER_LEN {
        Err(FormatError::TooShort)
    } else if bytes.len() < HEADER_LEN + declared_len(bytes) {
        Err(FormatError::LengthMismatch)
    } else {
        Ok(
            (
                bytes.subrange(0, NONCE_LEN as int),
                bytes.subrange(HEADER_LEN as int, HEADER_LEN + declared_len(bytes)),
            ),
        )
    }
}

/// Reading back the length field gives the length that was written.
pub proof fn lemma_be32_round_trip(n: u32)
    ensures
        be32_value(be32_bytes(n)) == n,
{
    assert((n / 0x100_0000) as u8 * 0x100_0000 + (n / 0x1_0000 % 0x100) as u8 * 0x1_0000 + (n
        / 0x100 % 0x100) as u8 * 0x100 + (n % 0x100) as u8 == n) by (bit_vector);
}

/// Decoding an envelope gives back the nonce and ciphertext it was built from.
pub proof fn lemma_decode_envelope(nonce: Seq<u8>, ciphertext: Seq<u8>)
    requires
        nonce.len() == NONCE_LEN,
        ciphertext.len() <= u32::MAX,
    ensures
        decode(envelope(nonce, ciphertext)) == Ok::<(Seq<u8>, Seq<u8>), FormatError>(
            (nonce, ciphertext),
        ),
{
    let e = envelope(nonce, ciphertext);
    lemma_be32_round_trip(ciphertext.len() as u32);
    assert(e.subrange(NONCE_LEN as int, HEADER_LEN as int) =~= be32_bytes(
        ciphertext.len() as u32,
    ));
    assert(e.subrange(0, NONCE_LEN as int) =~= nonce);
    assert(e.subrange(HEADER_LEN as int, HEADER_LEN + ciphertext.len()) =~= ciphertext);
}

/// The size of the envelope that carries a ciphertext of `ciphertext_len`
/// bytes, or `None` where the length field cannot hold that length.
pub fn encoded_len(ciphertext_len: usize) -> (r: Option<usize>)
    ensures
        ciphertext_len <= u32::MAX - HEADER_LEN ==> r == Some((HEADER_LEN + ciphertext_len) as usize),
        ciphertext_len > u32::MAX - HEADER_LEN ==> r is None,
{
    if ciphertext_len <= 0xFFFF_FFFF - HEADER_LEN {
        Some(HEADER_LEN + ciphertext_len)
    } else {
        None
    }
}

/// Frames `ciphertext` under `nonce`: the nonce, the ciphertext length as a
/// big-endian `u32`, then the ciphertext.
pub fn encode_envelope(nonce: &[u8; 12], ciphertext: &[u8]) -> (r: Vec<u8>)
    requires
        ciphertext@.len() <= u32::MAX,
    ensures
        r@ == envelope(nonce@, ciphertext@),
        r@.len() == HEADER_LEN + ciphertext@.len(),
{
    let n: u32 = ciphertext.len() as u32;
    let mut out: Vec<u8> = Vec::new();
    let mut i: usize = 0;
    while i < NONCE_LEN
        invariant
            i <= NONCE_LEN,
            out@ =~= nonce@.subrange(0, i as int),
        decreases NONCE_LEN - i,
    {
        out.push(nonce[i]);
        i = i + 1;
    }
    out.push((n / 0x100_0000) as u8);
    out.push((n / 0x1_0000 % 0x100) as u8);
    out.push((n / 0x100 % 0x100) as u8);
    out.push((n % 0x100) as u8);
    let ghost header = out@;
    assert(header =~= nonce@ + be32_bytes(n));
    let mut j: usize = 0;
    while j < ciphertext.len()
        invariant
            j <= ciphertext@.len(),
            out@ =~= header + ciphertext@.subrange(0, j as int),
        decreases ciphertext@.len() - j,
    {
        out.push(ciphertext[j]);
        j = j + 1;
    }
    assert(ciphertext@.subrange(0, ciphertext@.len() as int) =~= ciphertext@);
    out
}

/// Splits an envelope into its nonce and its declared ciphertext.
///
/// Fails with `TooShort` below the header size, and with `LengthMismatch`
/// where fewer bytes follow the header than it declares. Nothing else is
/// checked here: authenticity is the cipher's concern.
pub fn decode_envelope(bytes: &[u8]) -> (r: Result<([u8; 12], &[u8]), FormatError>)
    ensures
        match decode(bytes@) {
            Ok((nonce, ciphertext)) => r matches Ok((n, c)) && n@ == nonce && c@ == ciphertext,
            Err(e) => r == Err::<([u8; 12], &[u8]), FormatError>(e),
        },
{
    if bytes.len() < HEADER_LEN {
        return Err(FormatError::TooShort);
    }
    let declared: u32 = (bytes[12] as u32) * 0x100_0000 + (bytes[13] as u32) * 0x1_0000
        + (bytes[14] as u32) * 0x100 + (bytes[15] as u32);
    assert(declared == declared_len(bytes@));
    if bytes.len() - HEADER_LEN < declared as usize {
        return Err(FormatError::LengthMismatch);
    }
    let mut nonce: [u8; 12] = [0u8; 12];
    let mut i: usize = 0;
    while i < NONCE_LEN
        invariant
            i <= NONCE_LEN,
            bytes@.len() >= HEADER_LEN,
            forall|k: int| 0 <= k < i ==> nonce@[k] == bytes@[k],
        decreases NONCE_LEN - i,
    {
        nonce[i] = bytes[i];
        i = i + 1;
    }
    assert(nonce@ =~= bytes@.subrange(0, NONCE_LEN as int));
    let ciphertext = vstd::slice::slice_subrange(bytes, HEADER_LEN, HEADER_LEN + declared as usize);
    Ok((nonce, ciphertext))
}

} // verus!
