//! Device-pixel-ratio scaling.
//!
//! The host reports surface sizes in scaled (density-independent) units
//! together with a pixel density. The backing store of the rendering surface
//! must be sized in device pixels: `round(scaled_size * density)`, rounded to
//! the nearest integer with halves rounding up (all quantities here are
//! non-negative, so this agrees with rounding half away from zero).
//!
//! The density is carried as an exact rational number `num / den`, so the
//! rounding rule can be stated and checked precisely.

use vstd::prelude::*;

verus! {

/// A pixel density (device pixel ratio) as an exact non-negative rational.
#[derive(Clone, Copy, Debug, PartialEq, Eq, Structural)]
pub struct ScaleFactor {
    pub num: u32,
    pub den: u32,
}

impl ScaleFactor {
    /// A scale factor is well formed when its denominator is positive.
    pub open spec fn wf(self) -> bool {
        self.den > 0
    }

    /// Build a density from an exact ratio.
    pub fn from_ratio(num: u32, den: u32) -> (r: ScaleFactor)
        requires
            den > 0,
        ensures
            r == (ScaleFactor { num, den }),
            r.wf(),
    {
        ScaleFactor { num, den }
    }

    /// The identity density: one device pixel per scaled unit.
    pub fn identity() -> (r: ScaleFactor)
        ensures
            r.num == 1 && r.den == 1,
            r.wf(),
    {
        ScaleFactor { num: 1, den: 1 }
    }
}

/// `round(scaled * num / den)` to the nearest integer, halves rounding up.
/// For non-negative `x`, `round(x) == floor(x + 1/2) == floor((2x + 1) / 2)`,
/// and with `x == scaled * num / den` this is the expression below.
pub open spec fn round_scaled(scaled: nat, num: nat, den: nat) -> nat
    recommends
        den > 0,
{
    (2 * scaled * num + den) / (2 * den)
}

/// One side of the device-pixel size of the backing store.
pub fn unscaled_len(scaled: u32, factor: ScaleFactor) -> (r: u32)
    requires
        factor.wf(),
        round_scaled(scaled as nat, factor.num as nat, factor.den as nat) <= u32::MAX,
    ensures
        r == round_scaled(scaled as nat, factor.num as nat, factor.den as nat),
{
    proof {
        assert((scaled as u128) * (factor.num as u128) <= 0xFFFF_FFFFu128 * 0xFFFF_FFFFu128)
            by (nonlinear_arith)
            requires
                scaled as u128 <= 0xFFFF_FFFFu128,
                factor.num as u128 <= 0xFFFF_FFFFu128,
        ;
    }
    let prod: u128 = (scaled as u128) * (factor.num as u128);
    let wide: u128 = 2 * prod + (factor.den as u128);
    let divisor: u128 = 2 * (factor.den as u128);
    let quotient: u128 = wide / divisor;
    proof {
        assert(2 * prod == 2 * (scaled as int) * (factor.num as int)) by (nonlinear_arith)
            requires
                prod == (scaled as int) * (factor.num as int),
        ;
        assert(quotient == round_scaled(
            scaled as nat,
            factor.num as nat,
            factor.den as nat,
        ));
    }
    quotient as u32
}

} // verus!
