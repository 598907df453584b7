//! General laws of the three operations, stated over the model and
//! proved once for every width.

use vstd::prelude::*;

verus! {

use crate::model::{
    floor_log2_of,
    lemma_floor_log2_lower,
    lemma_floor_log2_unique,
    lemma_floor_log2_upper,
    lemma_low_bits_mask_pop_count,
    lemma_pow2_increases,
    mask_of,
    pop_count_of,
};
use vstd::arithmetic::power2::{
    is_pow2,
    is_pow2_equiv,
    is_pow2_exists,
    lemma2_to64,
    lemma_pow2,
    lemma_pow2_pos,
    lemma_pow2_strictly_increases,
    pow2,
};
use vstd::arithmetic::power::pow;

/// The floor logarithm of zero is zero: the defined value for the one
/// input that has no logarithm.
pub proof fn lemma_floor_log2_zero()
    ensures
        floor_log2_of(0) == 0,
{
}

/// The floor logarithm inverts the power of two exactly:
/// `floor_log2_of(2^k) == k`.
pub proof fn lemma_floor_log2_pow2(k: nat)
    ensures
        floor_log2_of(pow2(k)) == k,
{
    lemma_pow2_pos(k);
    lemma_pow2_strictly_increases(k, k + 1);
    lemma_floor_log2_unique(pow2(k), k);
}

/// The floor logarithm never decreases as its input grows.
pub proof fn lemma_floor_log2_monotonic(v1: nat, v2: nat)
    requires
        v1 <= v2,
    ensures
        floor_log2_of(v1) <= floor_log2_of(v2),
{
    if v1 >= 1 {
        lemma_floor_log2_lower(v1);
        lemma_floor_log2_upper(v2);
        if floor_log2_of(v1) > floor_log2_of(v2) {
            lemma_pow2_increases(floor_log2_of(v2) + 1, floor_log2_of(v1));
        }
    }
}

/// What the power-of-two operation returns is indeed a power of two.
pub proof fn lemma_exp2_is_pow2(p: nat)
    ensures
        is_pow2(pow2(p) as int),
{
    lemma_pow2_pos(p);
    lemma_pow2(p);
    assert(pow(2, p) == pow2(p) as int);
    assert(is_pow2_exists(pow2(p) as int));
    is_pow2_equiv(pow2(p) as int);
}

/// Masking below the width takes one less than the power of two; the
/// empty mask is zero; the full-width mask is the all-ones value
/// `2^w - 1`, the largest value of width `w`.
pub proof fn lemma_mask_values(p: nat, w: nat)
    ensures
        p < w ==> mask_of(p, w) == pow2(p) - 1,
        mask_of(0, w) == 0,
        mask_of(w, w) == pow2(w) - 1,
{
    lemma2_to64();
    lemma_pow2_pos(p);
    lemma_pow2_pos(w);
}

/// A mask to `p` bits at width `w` has exactly `min(p, w)` set bits.
pub proof fn lemma_mask_pop_count(p: nat, w: nat)
    ensures
        pop_count_of(mask_of(p, w)) == if p < w {
            p
        } else {
            w
        },
{
    if p < w {
        lemma_low_bits_mask_pop_count(p);
    } else {
        lemma_low_bits_mask_pop_count(w);
    }
}

} // verus!
