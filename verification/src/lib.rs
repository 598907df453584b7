//! Base-2 bit arithmetic for unsigned integers: floor of the base-2
//! logarithm, powers of two, and low-bit masks, offered uniformly over
//! every unsigned width through the [`Base2`] trait.

use vstd::prelude::*;

pub mod laws;
pub mod model;
pub mod widths;

verus! {

use crate::model::{floor_log2_of, mask_of};
use vstd::arithmetic::power2::pow2;

/// Base-2 bit arithmetic over an unsigned integer type of a fixed width.
///
/// Each implementing type reports its width in bits and its value as a
/// mathematical natural number; the three operations are specified
/// against those two views.
pub trait Base2: Sized {
    /// The width of the implementing type, in bits.
    spec fn bits() -> nat;

    /// The value as a mathematical natural number.
    spec fn to_nat(self) -> nat;

    /// The floor of the base-2 logarithm of `self`: the greatest `r`
    /// with `2^r <= self`. The input `0` has no logarithm and yields `0`.
    fn floor_log2(self) -> (r: u8)
        ensures
            r as nat == floor_log2_of(self.to_nat()),
            (r as nat) < Self::bits(),
    ;

    /// `2^p`, computed as `1` shifted left by `p` positions; defined only
    /// for shifts that stay inside the width.
    fn exp2(p: u8) -> (r: Self)
        requires
            (p as nat) < Self::bits(),
        ensures
            r.to_nat() == pow2(p as nat),
    ;

    /// A value with the low `p` bits set and every higher bit clear;
    /// for `p` at or above the width, every bit is set.
    fn mask(p: u8) -> (r: Self)
        ensures
            r.to_nat() == mask_of(p as nat, Self::bits()),
    ;
}

} // verus!
