//! Affine calibration maps between raw readings and physical quantities.
//!
//! All quantities are fixed-point integers. A transformation takes an input
//! in millivolts and yields micro-dBm: `scale` is therefore in micro-dBm per
//! millivolt (milli-dB per volt) and `offset` in micro-dBm. With these units
//! the forward map needs no division and is exact.

use vstd::prelude::*;
use vstd::arithmetic::div_mod::lemma_div_multiples_vanish;

verus! {

/// The integer quotient of `numerator` by `denominator`, rounded toward zero.
pub open spec fn quotient_toward_zero(numerator: int, denominator: int) -> int
    recommends
        denominator != 0,
{
    if numerator >= 0 {
        if denominator > 0 {
            numerator / denominator
        } else {
            -(numerator / (-denominator))
        }
    } else {
        if denominator > 0 {
            -((-numerator) / denominator)
        } else {
            (-numerator) / (-denominator)
        }
    }
}

/// The map `y = scale * x + offset`.
#[derive(Clone, Copy, Debug, PartialEq, Eq, Structural)]
pub struct LinearTransformation {
    /// Slope, in micro-dBm per millivolt.
    pub scale: i32,
    /// Value at zero input, in micro-dBm.
    pub offset: i32,
}

impl LinearTransformation {
    /// `scale * x + offset`.
    pub open spec fn spec_apply(self, x: int) -> int {
        self.scale * x + self.offset
    }

    /// `(y - offset) / scale`, rounded toward zero.
    pub open spec fn spec_inverse(self, y: int) -> int
        recommends
            self.scale != 0,
    {
        quotient_toward_zero(y - self.offset, self.scale as int)
    }

    /// A transformation with the given slope and offset.
    pub fn new(scale: i32, offset: i32) -> (transform: Self)
        ensures
            transform.scale == scale,
            transform.offset == offset,
    {
        LinearTransformation { scale, offset }
    }

    /// Maps a raw input to its calibrated value.
    pub fn apply(&self, x: i32) -> (y: i64)
        ensures
            y == self.spec_apply(x as int),
    {
        let scale: i64 = self.scale as i64;
        let input: i64 = x as i64;
        assert(-0x4000_0000_0000_0000 <= scale * input <= 0x4000_0000_0000_0000)
            by (nonlinear_arith)
            requires
                -0x8000_0000 <= scale < 0x8000_0000,
                -0x8000_0000 <= input < 0x8000_0000,
        ;
        scale * input + self.offset as i64
    }

    /// Maps a calibrated value back to the raw input that produces it.
    ///
    /// Returns `None` when the transformation has no inverse (zero scale) or
    /// when the preimage does not fit in 64 bits.
    pub fn inverse(&self, y: i64) -> (x: Option<i64>)
        ensures
            x == (if self.scale != 0 && i64::MIN <= self.spec_inverse(y as int) <= i64::MAX {
                Some(self.spec_inverse(y as int) as i64)
            } else {
                None
            }),
    {
        if self.scale == 0 {
            return None;
        }
        let difference: i128 = y as i128 - self.offset as i128;
        let quotient: i128 = if self.scale > 0 {
            difference / (self.scale as i128)
        } else {
            (0 - difference) / (0 - self.scale as i128)
        };
        if quotient < i64::MIN as i128 || quotient > i64::MAX as i128 {
            None
        } else {
            Some(quotient as i64)
        }
    }
}

/// A transformation maps zero to its offset.
pub proof fn lemma_apply_zero_is_offset(transform: LinearTransformation)
    ensures
        transform.spec_apply(0) == transform.offset,
{
}

/// The distance of an output from the output at zero is the input times the
/// scale.
pub proof fn lemma_apply_is_linear(transform: LinearTransformation, x: int)
    ensures
        transform.spec_apply(x) - transform.spec_apply(0) == transform.scale * x,
{
}

/// With a nonzero scale, the inverse recovers every input exactly.
pub proof fn lemma_inverse_recovers_input(transform: LinearTransformation, x: int)
    requires
        transform.scale != 0,
    ensures
        transform.spec_inverse(transform.spec_apply(x)) == x,
{
    let s = transform.scale as int;
    let product = s * x;
    if s > 0 {
        if x >= 0 {
            assert(product >= 0) by (nonlinear_arith)
                requires product == s * x, s > 0, x >= 0;
            lemma_div_multiples_vanish(x, s);
            assert(x * s == product) by (nonlinear_arith)
                requires product == s * x;
        } else {
            assert(product < 0) by (nonlinear_arith)
                requires product == s * x, s > 0, x < 0;
            lemma_div_multiples_vanish(-x, s);
            assert((-x) * s == -product) by (nonlinear_arith)
                requires product == s * x;
        }
    } else {
        if x > 0 {
            assert(product < 0) by (nonlinear_arith)
                requires product == s * x, s < 0, x > 0;
            lemma_div_multiples_vanish(x, -s);
            assert(x * (-s) == -product) by (nonlinear_arith)
                requires product == s * x;
        } else {
            assert(product >= 0) by (nonlinear_arith)
                requires product == s * x, s < 0, x <= 0;
            lemma_div_multiples_vanish(-x, -s);
            assert((-x) * (-s) == product) by (nonlinear_arith)
                requires product == s * x;
        }
    }
}

} // verus!
