use vstd::prelude::*;

verus! {

/// `buf` with its first `bytes.len()` bytes replaced by `bytes`; the rest is
/// left as it was.
pub open spec fn overwrite_prefix(buf: Seq<u8>, bytes: Seq<u8>) -> Seq<u8> {
    bytes + buf.subrange(bytes.len() as int, buf.len() as int)
}

/// Copies `src` to the front of `dst`, leaving the rest of `dst` untouched.
pub(crate) fn write_prefix(src: &[u8], dst: &mut [u8])
    requires
        src@.len() <= old(dst)@.len(),
    ensures
        final(dst)@ == overwrite_prefix(old(dst)@, src@),
{
    let n = src.len();
    let mut i: usize = 0;
    while i < n
        invariant
            n == src@.len(),
            i <= n,
            n <= dst@.len(),
            dst@.len() == old(dst)@.len(),
            forall|k: int| 0 <= k < i ==> dst@[k] == src@[k],
            forall|k: int| i <= k < dst@.len() ==> dst@[k] == old(dst)@[k],
        decreases n - i,
    {
        dst[i] = src[i];
        i = i + 1;
    }
    assert(dst@ =~= overwrite_prefix(old(dst)@, src@));
}

} // verus!
