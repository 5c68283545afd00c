//! Little-endian integers read from raw native buffers.
use vstd::prelude::*;

verus! {

/// The value of the `n - i` bytes `b[i..n]`, least significant first.
pub open spec fn le_from(b: Seq<u8>, i: int, n: int) -> nat
    decreases n - i,
{
    if i >= n {
        0
    } else {
        (b[i] as nat + 256 * le_from(b, i + 1, n)) as nat
    }
}

/// `256` raised to `k`.
pub open spec fn pow256(k: nat) -> nat
    decreases k,
{
    if k == 0 {
        1
    } else {
        256 * pow256((k - 1) as nat)
    }
}

/// The little-endian `u64` held by the eight bytes at `off`.
pub open spec fn le_u64_at(b: Seq<u8>, off: int) -> nat {
    le_from(b, off, off + 8)
}

/// The little-endian `u32` held by the four bytes at `off`.
pub open spec fn le_u32_at(b: Seq<u8>, off: int) -> nat {
    le_from(b, off, off + 4)
}

proof fn lemma_le_from_bound(b: Seq<u8>, i: int, n: int)
    requires
        0 <= i <= n <= b.len(),
    ensures
        le_from(b, i, n) < pow256((n - i) as nat),
    decreases n - i,
{
    if i < n {
        lemma_le_from_bound(b, i + 1, n);
        let r = le_from(b, i + 1, n);
        let p = pow256((n - i - 1) as nat);
        assert(b[i] as nat + 256 * r < 256 * p) by (nonlinear_arith)
            requires
                r < p,
                b[i] < 256,
        ;
    }
}

/// Reads the little-endian `u64` at `off`.
pub fn read_u64_le(b: &[u8], off: usize) -> (r: u64)
    requires
        off + 8 <= b@.len(),
    ensures
        r as nat == le_u64_at(b@, off as int),
{
    let len: usize = b.len();
    let end: usize = off + 8;
    let mut i: usize = end;
    let mut v: u64 = 0;
    proof {
        reveal_with_fuel(pow256, 9);
    }
    assert(pow256(8) == 0x1_0000_0000_0000_0000);
    while i > off
        invariant
            off <= i <= end,
            end == off + 8,
            pow256(8) == 0x1_0000_0000_0000_0000,
            end <= b@.len(),
            v as nat == le_from(b@, i as int, end as int),
        decreases i,
    {
        i = i - 1;
        proof {
            lemma_le_from_bound(b@, i as int, end as int);
            assert(pow256((end - i) as nat) <= pow256(8)) by {
                lemma_pow256_mono((end - i) as nat, 8);
            }
            assert(le_from(b@, i as int, end as int) == b@[i as int] as nat + 256 * le_from(
                b@,
                i + 1,
                end as int,
            ));
        }
        v = (b[i] as u64) + 256 * v;
    }
    v
}

/// Reads the little-endian `u32` at `off`.
pub fn read_u32_le(b: &[u8], off: usize) -> (r: u32)
    requires
        off + 4 <= b@.len(),
    ensures
        r as nat == le_u32_at(b@, off as int),
{
    let len: usize = b.len();
    let end: usize = off + 4;
    let mut i: usize = end;
    let mut v: u32 = 0;
    proof {
        reveal_with_fuel(pow256, 5);
    }
    assert(pow256(4) == 0x1_0000_0000);
    while i > off
        invariant
            off <= i <= end,
            end == off + 4,
            pow256(4) == 0x1_0000_0000,
            end <= b@.len(),
            v as nat == le_from(b@, i as int, end as int),
        decreases i,
    {
        i = i - 1;
        proof {
            lemma_le_from_bound(b@, i as int, end as int);
            assert(pow256((end - i) as nat) <= pow256(4)) by {
                lemma_pow256_mono((end - i) as nat, 4);
            }
            assert(le_from(b@, i as int, end as int) == b@[i as int] as nat + 256 * le_from(
                b@,
                i + 1,
                end as int,
            ));
        }
        v = (b[i] as u32) + 256 * v;
    }
    v
}

proof fn lemma_pow256_mono(a: nat, c: nat)
    requires
        a <= c,
    ensures
        pow256(a) <= pow256(c),
    decreases c,
{
    if a < c {
        lemma_pow256_mono(a, (c - 1) as nat);
    }
}

} // verus!
