//! Fixed-size byte blocks cut from and joined into slices.

use vstd::prelude::*;

verus! {

/// The 32 bytes of `src` that start at `start`.
pub(crate) fn take_32(src: &[u8], start: usize) -> (out: [u8; 32])
    requires
        start + 32 <= src@.len(),
    ensures
        out@ == src@.subrange(start as int, start + 32),
{
    let n: usize = src.len();
    let mut out: [u8; 32] = [0u8; 32];
    let mut i: usize = 0;
    while i < 32
        invariant
            i <= 32,
            n == src@.len(),
            start + 32 <= n,
            forall|j: int| 0 <= j < i ==> out@[j] == src@[start + j],
        decreases 32 - i,
    {
        out[i] = src[start + i];
        i = i + 1;
    }
    assert(out@ =~= src@.subrange(start as int, start + 32));
    out
}

/// The 64 bytes of a slice of that length.
pub(crate) fn take_64(src: &[u8]) -> (out: [u8; 64])
    requires
        src@.len() == 64,
    ensures
        out@ == src@,
{
    let mut out: [u8; 64] = [0u8; 64];
    let mut i: usize = 0;
    while i < 64
        invariant
            i <= 64,
            src@.len() == 64,
            forall|j: int| 0 <= j < i ==> out@[j] == src@[j],
        decreases 64 - i,
    {
        out[i] = src[i];
        i = i + 1;
    }
    assert(out@ =~= src@);
    out
}

/// Two 32-byte blocks, one after the other.
pub(crate) fn join_32(first: &[u8; 32], second: &[u8; 32]) -> (out: [u8; 64])
    ensures
        out@ == first@ + second@,
{
    let mut out: [u8; 64] = [0u8; 64];
    let mut i: usize = 0;
    while i < 32
        invariant
            i <= 32,
            forall|j: int| 0 <= j < i ==> out@[j] == first@[j],
            forall|j: int| 0 <= j < i ==> out@[32 + j] == second@[j],
        decreases 32 - i,
    {
        out[i] = first[i];
        out[32 + i] = second[i];
        i = i + 1;
    }
    assert(out@ =~= first@ + second@);
    out
}

/// Whether two 32-byte blocks hold the same bytes.
pub(crate) fn same_32(a: &[u8; 32], b: &[u8; 32]) -> (same: bool)
    ensures
        same == (a@ == b@),
{
    let mut i: usize = 0;
    while i < 32
        invariant
            i <= 32,
            forall|j: int| 0 <= j < i ==> a@[j] == b@[j],
        decreases 32 - i,
    {
        if a[i] != b[i] {
            return false;
        }
        i = i + 1;
    }
    assert(a@ =~= b@);
    true
}

} // verus!
