//! The mathematical model of the three operations: recursive definitions
//! over natural numbers, and the lemmas that pin their behaviour down.

use vstd::prelude::*;

verus! {

use vstd::arithmetic::power2::{
    lemma2_to64,
    lemma2_to64_rest,
    lemma_pow2_adds,
    lemma_pow2_pos,
    lemma_pow2_strictly_increases,
    lemma_pow2_unfold,
    pow2,
};
use vstd::bits::{lemma_low_bits_mask_unfold, low_bits_mask};

/// The floor of the base-2 logarithm of `v`, with `floor_log2_of(0) == 0`:
/// the number of halvings that bring `v` down to one (or zero).
pub open spec fn floor_log2_of(v: nat) -> nat
    decreases v,
{
    if v <= 1 {
        0
    } else {
        1 + floor_log2_of(v / 2)
    }
}

/// The value whose low `min(p, w)` bits are set and whose higher bits are
/// clear: what masking to `p` bits means at width `w`.
pub open spec fn mask_of(p: nat, w: nat) -> nat {
    if p < w {
        low_bits_mask(p)
    } else {
        low_bits_mask(w)
    }
}

/// How many set bits `v` has.
pub open spec fn pop_count_of(v: nat) -> nat
    decreases v,
{
    if v == 0 {
        0
    } else {
        v % 2 + pop_count_of(v / 2)
    }
}

/// Powers of two do not decrease as the exponent grows.
pub proof fn lemma_pow2_increases(e1: nat, e2: nat)
    requires
        e1 <= e2,
    ensures
        pow2(e1) <= pow2(e2),
{
    if e1 < e2 {
        lemma_pow2_strictly_increases(e1, e2);
    }
}

/// The two powers of two just beyond the 64-bit table in vstd: the ones
/// that bound a 128-bit value.
pub proof fn lemma_pow2_wide_values()
    ensures
        pow2(127) == 0x80000000000000000000000000000000,
        pow2(128) == 0x100000000000000000000000000000000,
{
    lemma2_to64();
    lemma2_to64_rest();
    lemma_pow2_adds(63, 64);
    lemma_pow2_adds(64, 64);
}

/// Shifting one left by `p` yields `2^p`, for any shift inside 128 bits.
/// The narrower widths have this fact in vstd; the widest needs it here.
pub proof fn lemma_u128_shl_is_pow2(p: u128)
    requires
        p < 128,
    ensures
        (1u128 << p) == pow2(p as nat),
    decreases p,
{
    if p == 0 {
        assert(1u128 << 0u128 == 1u128) by (bit_vector);
        lemma2_to64();
    } else {
        lemma_u128_shl_is_pow2((p - 1) as u128);
        assert((1u128 << p) == 2 * (1u128 << ((p - 1) as u128))) by (bit_vector)
            requires
                0 < p < 128,
        ;
        lemma_pow2_unfold(p as nat);
    }
}

/// The value with the low `p` bits set has exactly `p` set bits.
pub proof fn lemma_low_bits_mask_pop_count(p: nat)
    ensures
        pop_count_of(low_bits_mask(p)) == p,
    decreases p,
{
    lemma2_to64();
    if p > 0 {
        lemma_low_bits_mask_pop_count((p - 1) as nat);
        lemma_low_bits_mask_unfold(p);
    }
}

/// For positive `v`, `2^floor_log2_of(v)` does not exceed `v`.
pub proof fn lemma_floor_log2_lower(v: nat)
    requires
        v >= 1,
    ensures
        pow2(floor_log2_of(v)) <= v,
    decreases v,
{
    if v <= 1 {
        lemma2_to64();
    } else {
        lemma_floor_log2_lower(v / 2);
        lemma_pow2_unfold(floor_log2_of(v));
    }
}

/// `v` falls short of the next power of two after `2^floor_log2_of(v)`.
pub proof fn lemma_floor_log2_upper(v: nat)
    ensures
        v < pow2(floor_log2_of(v) + 1),
    decreases v,
{
    if v <= 1 {
        lemma2_to64();
    } else {
        lemma_floor_log2_upper(v / 2);
        lemma_pow2_unfold(floor_log2_of(v) + 1);
    }
}

/// The exponent `k` with `2^k <= v < 2^(k+1)` is the floor logarithm of
/// `v`: the two bounds determine it.
pub proof fn lemma_floor_log2_unique(v: nat, k: nat)
    requires
        pow2(k) <= v,
        v < pow2(k + 1),
    ensures
        floor_log2_of(v) == k,
{
    lemma_pow2_pos(k);
    lemma_floor_log2_lower(v);
    lemma_floor_log2_upper(v);
    if floor_log2_of(v) < k {
        lemma_pow2_increases(floor_log2_of(v) + 1, k);
    } else if floor_log2_of(v) > k {
        lemma_pow2_increases(k + 1, floor_log2_of(v));
    }
}

/// A value below `2^w` has its floor logarithm below `w`.
pub proof fn lemma_floor_log2_bound(v: nat, w: nat)
    requires
        w >= 1,
        v < pow2(w),
    ensures
        floor_log2_of(v) < w,
{
    if v >= 1 {
        lemma_floor_log2_lower(v);
        if floor_log2_of(v) >= w {
            lemma_pow2_increases(w, floor_log2_of(v));
        }
    }
}

} // verus!
