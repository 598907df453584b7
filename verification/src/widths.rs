//! The `Base2` implementations for the unsigned widths, all backed by one
//! verified linear scan wide enough to cover every one of them.

use vstd::prelude::*;

verus! {

use crate::Base2;
use crate::model::{
    floor_log2_of,
    lemma_floor_log2_bound,
    lemma_pow2_increases,
    lemma_pow2_wide_values,
    lemma_u128_shl_is_pow2,
};
use vstd::arithmetic::power2::{lemma2_to64, lemma2_to64_rest, lemma_pow2_pos, lemma_pow2_unfold};
use vstd::bits::{
    lemma_u16_shl_is_mul,
    lemma_u32_shl_is_mul,
    lemma_u64_shl_is_mul,
    lemma_u8_shl_is_mul,
    lemma_usize_shl_is_mul,
};
use vstd::layout::unsigned_int_max_values;

/// The shared floor-logarithm scan: repeatedly halve until the value
/// reaches one or zero, counting the halvings. Wide enough for a value
/// of any supported width.
fn floor_log2_wide(v: u128) -> (r: u8)
    ensures
        r as nat == floor_log2_of(v as nat),
        r <= 127,
{
    proof {
        lemma_pow2_wide_values();
        lemma_floor_log2_bound(v as nat, 128);
    }
    let mut x: u128 = v;
    let mut r: u8 = 0;
    while x > 1
        invariant
            floor_log2_of(v as nat) == r as nat + floor_log2_of(x as nat),
            floor_log2_of(v as nat) <= 127,
        decreases x,
    {
        x = x / 2;
        r = r + 1;
    }
    r
}

impl Base2 for u8 {
    open spec fn bits() -> nat {
        8
    }

    open spec fn to_nat(self) -> nat {
        self as nat
    }

    fn floor_log2(self) -> (r: u8) {
        proof {
            lemma2_to64();
            lemma_floor_log2_bound(self as nat, 8);
        }
        floor_log2_wide(self as u128)
    }

    fn exp2(p: u8) -> (r: u8) {
        proof {
            lemma2_to64();
            lemma_pow2_increases(p as nat, 7);
            lemma_u8_shl_is_mul(1u8, p);
        }
        1u8 << p
    }

    fn mask(p: u8) -> (r: u8) {
        if p >= 8 {
            proof {
                lemma2_to64();
            }
            u8::MAX
        } else {
            let e = Self::exp2(p);
            proof {
                lemma_pow2_pos(p as nat);
            }
            e - 1
        }
    }
}

impl Base2 for u16 {
    open spec fn bits() -> nat {
        16
    }

    open spec fn to_nat(self) -> nat {
        self as nat
    }

    fn floor_log2(self) -> (r: u8) {
        proof {
            lemma2_to64();
            lemma_floor_log2_bound(self as nat, 16);
        }
        floor_log2_wide(self as u128)
    }

    fn exp2(p: u8) -> (r: u16) {
        proof {
            lemma2_to64();
            lemma_pow2_increases(p as nat, 15);
            lemma_u16_shl_is_mul(1u16, p as u16);
        }
        1u16 << (p as u16)
    }

    fn mask(p: u8) -> (r: u16) {
        if p >= 16 {
            proof {
                lemma2_to64();
            }
            u16::MAX
        } else {
            let e = Self::exp2(p);
            proof {
                lemma_pow2_pos(p as nat);
            }
            e - 1
        }
    }
}

impl Base2 for u32 {
    open spec fn bits() -> nat {
        32
    }

    open spec fn to_nat(self) -> nat {
        self as nat
    }

    fn floor_log2(self) -> (r: u8) {
        proof {
            lemma2_to64();
            lemma_floor_log2_bound(self as nat, 32);
        }
        floor_log2_wide(self as u128)
    }

    fn exp2(p: u8) -> (r: u32) {
        proof {
            lemma2_to64();
            lemma_pow2_increases(p as nat, 31);
            lemma_u32_shl_is_mul(1u32, p as u32);
        }
        1u32 << (p as u32)
    }

    fn mask(p: u8) -> (r: u32) {
        if p >= 32 {
            proof {
                lemma2_to64();
            }
            u32::MAX
        } else {
            let e = Self::exp2(p);
            proof {
                lemma_pow2_pos(p as nat);
            }
            e - 1
        }
    }
}

impl Base2 for u64 {
    open spec fn bits() -> nat {
        64
    }

    open spec fn to_nat(self) -> nat {
        self as nat
    }

    fn floor_log2(self) -> (r: u8) {
        proof {
            lemma2_to64();
            lemma_floor_log2_bound(self as nat, 64);
        }
        floor_log2_wide(self as u128)
    }

    fn exp2(p: u8) -> (r: u64) {
        proof {
            lemma2_to64();
            lemma2_to64_rest();
            lemma_pow2_increases(p as nat, 63);
            lemma_u64_shl_is_mul(1u64, p as u64);
        }
        1u64 << (p as u64)
    }

    fn mask(p: u8) -> (r: u64) {
        if p >= 64 {
            proof {
                lemma2_to64();
            }
            u64::MAX
        } else {
            let e = Self::exp2(p);
            proof {
                lemma_pow2_pos(p as nat);
            }
            e - 1
        }
    }
}

impl Base2 for u128 {
    open spec fn bits() -> nat {
        128
    }

    open spec fn to_nat(self) -> nat {
        self as nat
    }

    fn floor_log2(self) -> (r: u8) {
        proof {
            lemma_pow2_wide_values();
            lemma_floor_log2_bound(self as nat, 128);
        }
        floor_log2_wide(self)
    }

    fn exp2(p: u8) -> (r: u128) {
        proof {
            lemma_u128_shl_is_pow2(p as u128);
        }
        1u128 << (p as u128)
    }

    fn mask(p: u8) -> (r: u128) {
        if p >= 128 {
            proof {
                lemma_pow2_wide_values();
            }
            u128::MAX
        } else {
            let e = Self::exp2(p);
            proof {
                lemma_pow2_pos(p as nat);
            }
            e - 1
        }
    }
}

impl Base2 for usize {
    open spec fn bits() -> nat {
        usize::BITS as nat
    }

    open spec fn to_nat(self) -> nat {
        self as nat
    }

    fn floor_log2(self) -> (r: u8) {
        proof {
            unsigned_int_max_values();
            lemma_floor_log2_bound(self as nat, usize::BITS as nat);
        }
        floor_log2_wide(self as u128)
    }

    fn exp2(p: u8) -> (r: usize) {
        proof {
            unsigned_int_max_values();
            lemma_pow2_increases(p as nat + 1, usize::BITS as nat);
            lemma_pow2_unfold(p as nat + 1);
            lemma_pow2_pos(p as nat);
            lemma_usize_shl_is_mul(1usize, p as usize);
        }
        1usize << (p as usize)
    }

    fn mask(p: u8) -> (r: usize) {
        if p as u32 >= usize::BITS {
            proof {
                unsigned_int_max_values();
            }
            usize::MAX
        } else {
            let e = Self::exp2(p);
            proof {
                lemma_pow2_pos(p as nat);
            }
            e - 1
        }
    }
}

} // verus!
