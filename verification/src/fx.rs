//! Q19.44 saturating fixed-point scalars.
//!
//! A scalar is stored as a raw `i64` holding `value * 2^44` in two's
//! complement.  All arithmetic is total: results are rounded toward zero
//! (where rounding applies) and saturated to the symmetric range
//! `[-(2^63 - 1), 2^63 - 1]`, and division by zero saturates by the sign of
//! the dividend.  The specification functions below mirror the executable
//! operations exactly over `int`, so every contract in the crate is stated
//! in terms of them.

use vstd::prelude::*;

verus! {

/// Number of bits representing `1.0`: the global fixed-point scale `2^44`.
pub const FX_ONE: i64 = 17592186044416;

/// Largest representable raw value (`i64::MAX`).
pub const FX_MAX: i64 = 9223372036854775807;

/// Smallest representable raw value; the range is kept symmetric so that
/// negation and absolute value are total.
pub const FX_MIN: i64 = -9223372036854775807;

/// Magnitude of an integer.
pub open spec fn mag(x: int) -> int {
    if x >= 0 {
        x
    } else {
        -x
    }
}

/// Saturation to the representable range.
pub open spec fn sat(x: int) -> int {
    if x > FX_MAX {
        FX_MAX as int
    } else if x < FX_MIN {
        FX_MIN as int
    } else {
        x
    }
}

/// Reattach a sign to a nonnegative quotient (truncated division is
/// performed on magnitudes).
pub open spec fn signed(neg: bool, q: int) -> int {
    if neg {
        -q
    } else {
        q
    }
}

/// Saturating addition.
pub open spec fn spec_add(a: int, b: int) -> int {
    sat(a + b)
}

/// Saturating subtraction.
pub open spec fn spec_sub(a: int, b: int) -> int {
    sat(a - b)
}

/// Saturating negation.
pub open spec fn spec_neg(a: int) -> int {
    sat(-a)
}

/// Saturating absolute value.
pub open spec fn spec_abs(a: int) -> int {
    sat(mag(a))
}

/// Saturating product of two scalars: magnitudes are multiplied, scaled
/// back down by `FX_ONE` with truncation toward zero, then signed and
/// saturated.
pub open spec fn spec_mul(a: int, b: int) -> int {
    sat(signed((a < 0) != (b < 0), (mag(a) * mag(b)) / (FX_ONE as int)))
}

/// Saturating quotient of two scalars.  Division by zero saturates by the
/// sign of the dividend (and `0 / 0 == 0`).
pub open spec fn spec_div(a: int, b: int) -> int {
    if b == 0 {
        if a > 0 {
            FX_MAX as int
        } else if a < 0 {
            FX_MIN as int
        } else {
            0
        }
    } else {
        sat(signed((a < 0) != (b < 0), (mag(a) * (FX_ONE as int)) / mag(b)))
    }
}

/// A Q19.44 fixed-point scalar.
#[derive(Clone, Copy, PartialEq, Eq, Structural, Debug)]
pub struct Fx {
    pub bits: i64,
}

impl Fx {
    /// The mathematical model of a scalar: its raw bits as an integer.
    pub open spec fn v(self) -> int {
        self.bits as int
    }

    pub fn from_bits(bits: i64) -> (r: Fx)
        ensures
            r.bits == bits,
    {
        Fx { bits }
    }

    pub fn zero() -> (r: Fx)
        ensures
            r.v() == 0,
    {
        Fx { bits: 0 }
    }

    pub fn one() -> (r: Fx)
        ensures
            r.v() == FX_ONE as int,
    {
        Fx { bits: FX_ONE }
    }

    /// The scalar closest to the integer `n`: `n * 2^44`, saturated.
    pub fn from_int(n: i64) -> (r: Fx)
        ensures
            r.v() == sat(n * (FX_ONE as int)),
    {
        let neg: bool = n < 0;
        let m: u128 = mag_u128(n);
        let p: u128 = m * (FX_ONE as u128);
        proof {
            assert(p == mag(n as int) * (FX_ONE as int)) by (nonlinear_arith)
                requires
                    m == mag(n as int),
                    p == m * (FX_ONE as u128),
            ;
            assert(sat(n * (FX_ONE as int)) == sat(signed(neg, p as int))) by (nonlinear_arith)
                requires
                    neg == (n < 0),
                    p == mag(n as int) * (FX_ONE as int),
            ;
        }
        Fx { bits: clamp_mag(neg, p) }
    }

    pub fn from_usize(n: usize) -> (r: Fx)
        ensures
            r.v() == sat(n * (FX_ONE as int)),
    {
        let p: u128 = (n as u128) * (FX_ONE as u128);
        Fx { bits: clamp_mag(false, p) }
    }

    pub fn sat_add(self, o: Fx) -> (r: Fx)
        ensures
            r.v() == spec_add(self.v(), o.v()),
    {
        let s: i128 = self.bits as i128 + o.bits as i128;
        Fx { bits: clamp_i128(s) }
    }

    pub fn sat_sub(self, o: Fx) -> (r: Fx)
        ensures
            r.v() == spec_sub(self.v(), o.v()),
    {
        let s: i128 = self.bits as i128 - o.bits as i128;
        Fx { bits: clamp_i128(s) }
    }

    pub fn sat_neg(self) -> (r: Fx)
        ensures
            r.v() == spec_neg(self.v()),
    {
        let s: i128 = -(self.bits as i128);
        Fx { bits: clamp_i128(s) }
    }

    pub fn sat_abs(self) -> (r: Fx)
        ensures
            r.v() == spec_abs(self.v()),
    {
        if self.bits < 0 {
            let s: i128 = -(self.bits as i128);
            Fx { bits: clamp_i128(s) }
        } else {
            self
        }
    }

    pub fn sat_mul(self, o: Fx) -> (r: Fx)
        ensures
            r.v() == spec_mul(self.v(), o.v()),
    {
        let neg: bool = (self.bits < 0) != (o.bits < 0);
        let am: u128 = mag_u128(self.bits);
        let bm: u128 = mag_u128(o.bits);
        proof {
            assert(am * bm <= 0x8000000000000000u128 * 0x8000000000000000u128)
                by (nonlinear_arith)
                requires
                    am <= 0x8000000000000000u128,
                    bm <= 0x8000000000000000u128,
            ;
        }
        let p: u128 = am * bm;
        let q: u128 = p / (FX_ONE as u128);
        proof {
            assert(q == (mag(self.v()) * mag(o.v())) / (FX_ONE as int)) by (nonlinear_arith)
                requires
                    am == mag(self.v()),
                    bm == mag(o.v()),
                    p == am * bm,
                    q == p / (FX_ONE as u128),
            ;
        }
        Fx { bits: clamp_mag(neg, q) }
    }

    pub fn sat_div(self, o: Fx) -> (r: Fx)
        ensures
            r.v() == spec_div(self.v(), o.v()),
    {
        if o.bits == 0 {
            if self.bits > 0 {
                Fx { bits: FX_MAX }
            } else if self.bits < 0 {
                Fx { bits: FX_MIN }
            } else {
                Fx { bits: 0 }
            }
        } else {
            let neg: bool = (self.bits < 0) != (o.bits < 0);
            let am: u128 = mag_u128(self.bits);
            let bm: u128 = mag_u128(o.bits);
            proof {
                assert(am * (FX_ONE as u128) <= 0x8000000000000000u128 * (FX_ONE as u128))
                    by (nonlinear_arith)
                    requires
                        am <= 0x8000000000000000u128,
                ;
            }
            let p: u128 = am * (FX_ONE as u128);
            let q: u128 = p / bm;
            proof {
                assert(q == (mag(self.v()) * (FX_ONE as int)) / mag(o.v()))
                    by (nonlinear_arith)
                    requires
                        am == mag(self.v()),
                        bm == mag(o.v()),
                        bm > 0,
                        p == am * (FX_ONE as u128),
                        q == p / bm,
                ;
            }
            Fx { bits: clamp_mag(neg, q) }
        }
    }

    /// Strictly-less comparison on the underlying values.
    pub fn lt(self, o: Fx) -> (r: bool)
        ensures
            r == (self.v() < o.v()),
    {
        self.bits < o.bits
    }

    pub fn le(self, o: Fx) -> (r: bool)
        ensures
            r == (self.v() <= o.v()),
    {
        self.bits <= o.bits
    }

    pub fn gt(self, o: Fx) -> (r: bool)
        ensures
            r == (self.v() > o.v()),
    {
        self.bits > o.bits
    }

    pub fn is_zero(self) -> (r: bool)
        ensures
            r == (self.v() == 0),
    {
        self.bits == 0
    }
}

/// Magnitude of an `i64`, widened so that `i64::MIN` is handled.
fn mag_u128(x: i64) -> (r: u128)
    ensures
        r == mag(x as int),
{
    if x >= 0 {
        x as u128
    } else {
        (-(x as i128)) as u128
    }
}

/// Saturate a wide signed intermediate into the raw range.
fn clamp_i128(x: i128) -> (r: i64)
    ensures
        r as int == sat(x as int),
{
    if x > FX_MAX as i128 {
        FX_MAX
    } else if x < FX_MIN as i128 {
        FX_MIN
    } else {
        x as i64
    }
}

/// Sign and saturate a nonnegative wide magnitude.
fn clamp_mag(neg: bool, q: u128) -> (r: i64)
    ensures
        r as int == sat(signed(neg, q as int)),
{
    if q > FX_MAX as u128 {
        if neg {
            FX_MIN
        } else {
            FX_MAX
        }
    } else {
        if neg {
            -(q as i64)
        } else {
            q as i64
        }
    }
}

/// Multiplying by one leaves an in-range value unchanged (and saturates an
/// out-of-range one).
pub broadcast proof fn lemma_mul_one(x: int)
    ensures
        #[trigger] spec_mul(FX_ONE as int, x) == sat(x),
{
    vstd::arithmetic::div_mod::lemma_div_multiples_vanish(mag(x), FX_ONE as int);
    assert((FX_ONE as int) * mag(x) == mag(FX_ONE as int) * mag(x)) by (nonlinear_arith);
}

/// Multiplying by one on the right leaves an in-range value unchanged
/// (and saturates an out-of-range one).
pub broadcast proof fn lemma_mul_one_right(x: int)
    ensures
        #[trigger] spec_mul(x, FX_ONE as int) == sat(x),
{
    vstd::arithmetic::div_mod::lemma_div_multiples_vanish(mag(x), FX_ONE as int);
    assert(mag(x) * mag(FX_ONE as int) == (FX_ONE as int) * mag(x)) by (nonlinear_arith);
}

/// Multiplying by zero yields zero.
pub broadcast proof fn lemma_mul_zero(a: int, b: int)
    ensures
        #![trigger spec_mul(a, b)]
        (a == 0 || b == 0) ==> spec_mul(a, b) == 0,
{
    if a == 0 || b == 0 {
        assert(mag(a) * mag(b) == 0) by (nonlinear_arith)
            requires
                mag(a) == 0 || mag(b) == 0,
        ;
    }
}

/// A nonzero value divided by itself is exactly one.
pub broadcast proof fn lemma_div_self(x: int)
    requires
        x != 0,
    ensures
        #[trigger] spec_div(x, x) == FX_ONE as int,
{
    vstd::arithmetic::div_mod::lemma_div_multiples_vanish(FX_ONE as int, mag(x));
}

} // verus!
