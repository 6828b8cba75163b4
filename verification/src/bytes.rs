//! Little-endian byte values read from a borrowed buffer.

use vstd::prelude::*;

verus! {

/// The value of the `n` bytes of `data` starting at `pos`, read
/// little-endian: the byte at `pos` is the least significant.
pub open spec fn spec_le_bytes(data: Seq<u8>, pos: int, n: int) -> int
    decreases n,
{
    if n <= 0 {
        0
    } else {
        data[pos] + 256 * spec_le_bytes(data, pos + 1, n - 1)
    }
}

/// 256 raised to the power `n`; the exclusive upper bound of an `n`-byte
/// little-endian value.
pub open spec fn pow256(n: int) -> int
    decreases n,
{
    if n <= 0 {
        1
    } else {
        256 * pow256(n - 1)
    }
}

/// The values of `pow256` on the byte counts that occur in a TGA file.
pub proof fn lemma_pow256_values()
    ensures
        pow256(0) == 1,
        pow256(1) == 0x100,
        pow256(2) == 0x1_0000,
        pow256(3) == 0x100_0000,
        pow256(4) == 0x1_0000_0000,
{
    reveal_with_fuel(pow256, 5);
}

/// An `n`-byte little-endian value lies in `[0, 256^n)`.
pub proof fn lemma_le_bytes_bound(data: Seq<u8>, pos: int, n: int)
    ensures
        0 <= spec_le_bytes(data, pos, n) < pow256(n),
    decreases n,
{
    if n <= 0 {
    } else {
        lemma_le_bytes_bound(data, pos + 1, n - 1);
    }
}

/// A little-endian value of at most four bytes fits in a `u32`.
pub proof fn lemma_le_bytes_fits_u32(data: Seq<u8>, pos: int, n: int)
    requires
        n <= 4,
    ensures
        0 <= spec_le_bytes(data, pos, n) < 0x1_0000_0000,
{
    lemma_le_bytes_bound(data, pos, n);
    lemma_pow256_values();
    if n <= 0 {
    } else if n == 1 {
        assert(pow256(n) == 0x100);
    } else if n == 2 {
        assert(pow256(n) == 0x1_0000);
    } else if n == 3 {
        assert(pow256(n) == 0x100_0000);
    } else {
        assert(n == 4);
        assert(pow256(n) == 0x1_0000_0000);
    }
}

/// Reads the `n` bytes at offset `pos` as one little-endian value.
pub fn read_le_bytes(s: &[u8], pos: usize, n: usize) -> (r: u32)
    requires
        1 <= n <= 4,
        pos + n <= s@.len(),
    ensures
        r == spec_le_bytes(s@, pos as int, n as int),
{
    let total = s.len();
    let mut acc: u32 = 0;
    let mut i: usize = n;
    while i > 0
        invariant
            1 <= n <= 4,
            pos + n <= total,
            total == s@.len(),
            i <= n,
            acc == spec_le_bytes(s@, pos + i, n - i),
        decreases i,
    {
        i = i - 1;
        proof {
            lemma_le_bytes_bound(s@, pos + i + 1, n - i - 1);
            lemma_pow256_values();
            let k = n - i - 1;
            if k == 0 {
                assert(pow256(k) == 1);
            } else if k == 1 {
                assert(pow256(k) == 0x100);
            } else if k == 2 {
                assert(pow256(k) == 0x1_0000);
            } else {
                assert(k == 3);
                assert(pow256(k) == 0x100_0000);
            }
        }
        acc = acc * 256 + s[pos + i] as u32;
    }
    acc
}

} // verus!
