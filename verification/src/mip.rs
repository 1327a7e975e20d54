//! The number of mipmap levels of a full chain for given dimensions.

use vstd::prelude::*;
use vstd::arithmetic::power2::{pow2, lemma2_to64, lemma_pow2_unfold, lemma_pow2_pos};

verus! {

/// The number of binary digits of `w`: 0 for 0, else `floor(log2(w)) + 1`.
pub open spec fn bit_len(w: nat) -> nat
    decreases w,
{
    if w == 0 {
        0
    } else {
        1 + bit_len(w / 2)
    }
}

/// A value below `2^k` has at most `k` binary digits.
pub proof fn lemma_bit_len_le(w: nat, k: nat)
    requires
        w < pow2(k),
    ensures
        bit_len(w) <= k,
    decreases k,
{
    if w > 0 {
        if k == 0 {
            lemma2_to64();
        } else {
            lemma_pow2_unfold(k);
            lemma_bit_len_le(w / 2, (k - 1) as nat);
        }
    }
}

/// A positive `w` with `n` binary digits lies in `[2^(n-1), 2^n)`: `n` is
/// `floor(log2(w)) + 1`.
pub proof fn lemma_bit_len_bounds(w: nat)
    requires
        w >= 1,
    ensures
        bit_len(w) >= 1,
        pow2((bit_len(w) - 1) as nat) <= w < pow2(bit_len(w)),
    decreases w,
{
    let n = bit_len(w);
    if w == 1 {
        assert(bit_len(0) == 0);
        lemma2_to64();
    } else {
        lemma_bit_len_bounds(w / 2);
        let m = bit_len(w / 2);
        assert(n == m + 1);
        lemma_pow2_unfold(n);
        lemma_pow2_unfold(m);
        lemma_pow2_pos((m - 1) as nat);
    }
}

/// Larger values never have fewer binary digits.
pub proof fn lemma_bit_len_monotone(a: nat, b: nat)
    requires
        a <= b,
    ensures
        bit_len(a) <= bit_len(b),
    decreases b,
{
    if a > 0 {
        lemma_bit_len_monotone(a / 2, b / 2);
    }
}

/// The number of mipmap levels of a full chain for a row of `w` texels:
/// `floor(log2(w)) + 1`, and 0 for an empty row.
pub fn mip_level1(w: u16) -> (r: u8)
    ensures
        r == bit_len(w as nat),
        r <= 16,
        w == 0 ==> r == 0,
        w >= 1 ==> pow2((r - 1) as nat) <= w < pow2(r as nat),
{
    proof {
        lemma2_to64();
        lemma_bit_len_le(w as nat, 16);
        if w >= 1 {
            lemma_bit_len_bounds(w as nat);
        }
    }
    let mut v: u16 = w;
    let mut n: u8 = 0;
    while v > 0
        invariant
            n + bit_len(v as nat) == bit_len(w as nat),
            bit_len(w as nat) <= 16,
        decreases v,
    {
        v = v / 2;
        n = n + 1;
    }
    n
}

/// The number of mipmap levels of a full chain for a `w` by `h` image: that
/// of its larger side.
pub fn mip_level2(w: u16, h: u16) -> (r: u8)
    ensures
        r == bit_len(if w >= h { w as nat } else { h as nat }),
        r <= 16,
{
    mip_level1(if w >= h { w } else { h })
}

/// The number of mipmap levels of a full chain for a `w` by `h` by `d`
/// volume: that of its largest side.
pub fn mip_level3(w: u16, h: u16, d: u16) -> (r: u8)
    ensures
        r == bit_len(max3(w, h, d) as nat),
        r <= 16,
{
    let hd = if h >= d { h } else { d };
    mip_level1(if w >= hd { w } else { hd })
}

/// The largest of three sizes.
pub open spec fn max3(w: u16, h: u16, d: u16) -> u16 {
    let hd = if h >= d { h } else { d };
    if w >= hd { w } else { hd }
}

/// The smaller of two level counts, as a `GLint`.
pub fn min_levels(a: u8, b: u8) -> (r: i32)
    ensures
        r == (if a <= b { a } else { b }),
{
    if a <= b { a as i32 } else { b as i32 }
}

} // verus!
