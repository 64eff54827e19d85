//! Byte-level helpers for the fixed-width wire encodings the completion
//! protocol reads: little-endian integers and 32-byte addresses.

use vstd::prelude::*;

verus! {

/// The unsigned integer that eight little-endian bytes encode.
pub open spec fn spec_u64_le(s: Seq<u8>) -> int
    recommends
        s.len() == 8,
{
    s[0] + s[1] * 0x100 + s[2] * 0x1_0000 + s[3] * 0x100_0000 + s[4] * 0x1_0000_0000 + s[5]
        * 0x100_0000_0000 + s[6] * 0x1_0000_0000_0000 + s[7] * 0x100_0000_0000_0000
}

/// Reads the little-endian `u64` stored at `offset` in `b`.
pub fn read_u64_le(b: &[u8], offset: usize) -> (r: u64)
    requires
        offset + 8 <= b@.len(),
    ensures
        r == spec_u64_le(b@.subrange(offset as int, offset as int + 8)),
{
    let r = (b[offset] as u64) + (b[offset + 1] as u64) * 0x100 + (b[offset + 2] as u64)
        * 0x1_0000 + (b[offset + 3] as u64) * 0x100_0000 + (b[offset + 4] as u64)
        * 0x1_0000_0000 + (b[offset + 5] as u64) * 0x100_0000_0000 + (b[offset + 6] as u64)
        * 0x1_0000_0000_0000 + (b[offset + 7] as u64) * 0x100_0000_0000_0000;
    proof {
        let s = b@.subrange(offset as int, offset as int + 8);
        assert(s[0] == b@[offset as int]);
        assert(s[1] == b@[offset as int + 1]);
        assert(s[2] == b@[offset as int + 2]);
        assert(s[3] == b@[offset as int + 3]);
        assert(s[4] == b@[offset as int + 4]);
        assert(s[5] == b@[offset as int + 5]);
        assert(s[6] == b@[offset as int + 6]);
        assert(s[7] == b@[offset as int + 7]);
    }
    r
}

/// Whether two byte strings hold the same bytes.
pub fn bytes_eq(a: &[u8], b: &[u8]) -> (r: bool)
    ensures
        r == (a@ == b@),
{
    if a.len() != b.len() {
        return false;
    }
    let n = a.len();
    let mut i: usize = 0;
    while i < n
        invariant
            n == a@.len() == b@.len(),
            i <= n,
            forall|j: int| 0 <= j < i ==> a@[j] == b@[j],
        decreases n - i,
    {
        if a[i] != b[i] {
            return false;
        }
        i += 1;
    }
    proof {
        assert(a@ =~= b@);
    }
    true
}

/// Copies the bytes of `b` between `start` and `end` into a fresh vector.
pub fn bytes_to_vec(b: &[u8], start: usize, end: usize) -> (r: Vec<u8>)
    requires
        start <= end <= b@.len(),
    ensures
        r@ == b@.subrange(start as int, end as int),
{
    let mut r: Vec<u8> = Vec::new();
    let mut i: usize = start;
    while i < end
        invariant
            start <= i <= end <= b@.len(),
            r@ == b@.subrange(start as int, i as int),
        decreases end - i,
    {
        r.push(b[i]);
        i += 1;
        proof {
            assert(r@ =~= b@.subrange(start as int, i as int));
        }
    }
    r
}

} // verus!
