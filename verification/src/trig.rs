//! Transcendental functions on Q19.44 scalars.
//!
//! The heavy lifting is done by the `cordic` crate, which computes on
//! `fixed::types::I20F44` (the same bit layout as [`crate::fx::Fx`]) with
//! pure integer arithmetic, so each routine is a deterministic function of
//! the argument bits alone.  Each cordic routine is named by an
//! uninterpreted spec function and called through one trusted wrapper.
//!
//! The verified layer on top pins down the values that the tracing algebra
//! depends on exactly: the sine, cosine and arc sine of zero are exactly
//! zero, zero and one (the cordic iteration can leave rounding residue
//! there), the tangent is the saturating quotient of sine and cosine (the
//! cordic tangent divides without a zero check), the arc sine is derived
//! from the arc tangent and the square root (the cordic arc sine is
//! markedly less accurate), and arguments are kept inside the ranges in
//! which the cordic iterations provably stay free of `i64` overflow.

use vstd::prelude::*;

use crate::fx::{mag, spec_div, spec_mul, spec_sub, Fx, FX_ONE};

verus! {

/// Largest magnitude handed to the cordic arc tangent: `65536.0`.  Beyond
/// it the argument is clamped; the arc tangent is within `2^-16` of a right
/// angle there, below the representable resolution of the result's use.
pub const ATAN_DOM: i64 = 65536 * 17592186044416;

/// Largest value handed to the cordic square root: `2^17`.  A larger
/// argument is quartered first and the root doubled afterwards.
pub const SQRT_DOM: i64 = 131072 * 17592186044416;

/// The raw bits that `cordic::sin` returns for the given argument bits.
pub uninterp spec fn sin_bits(x: int) -> int;

/// The raw bits that `cordic::cos` returns for the given argument bits.
pub uninterp spec fn cos_bits(x: int) -> int;

/// The raw bits that `cordic::atan` returns for the given argument bits.
pub uninterp spec fn atan_bits(x: int) -> int;

/// The raw bits that `cordic::sqrt` returns for the given argument bits.
pub uninterp spec fn sqrt_bits(x: int) -> int;

/// Sine, with `sin(0) == 0` exactly.
pub open spec fn spec_sin(x: int) -> int {
    if x == 0 {
        0
    } else {
        sin_bits(x)
    }
}

/// Cosine, with `cos(0) == 1` exactly.
pub open spec fn spec_cos(x: int) -> int {
    if x == 0 {
        FX_ONE as int
    } else {
        cos_bits(x)
    }
}

/// Tangent: the saturating quotient of sine and cosine.
pub open spec fn spec_tan(x: int) -> int {
    spec_div(spec_sin(x), spec_cos(x))
}

/// Arc sine on `[-1, 1]`, with `asin(0) == 0` exactly.  It is computed as
/// `atan(x / sqrt(1 - x^2))`, which is considerably more accurate on the
/// cordic iterations than their own arc sine; at a magnitude of exactly
/// one the quotient saturates and the arc tangent's clamp makes the result
/// fall short of a right angle by less than `2^-16`.
pub open spec fn spec_asin(x: int) -> int {
    if x == 0 {
        0
    } else {
        spec_atan(spec_div(x, spec_sqrt(spec_sub(FX_ONE as int, spec_mul(x, x)))))
    }
}

/// The arc tangent's argument, clamped to the cordic iteration's safe range.
pub open spec fn atan_clamp(x: int) -> int {
    if x > ATAN_DOM {
        ATAN_DOM as int
    } else if x < -ATAN_DOM {
        -ATAN_DOM as int
    } else {
        x
    }
}

/// Arc tangent of the clamped argument.
pub open spec fn spec_atan(x: int) -> int {
    atan_bits(atan_clamp(x))
}

/// Square root of a nonnegative scalar; a value above [`SQRT_DOM`] is
/// quartered before the cordic call and the root doubled afterwards.
pub open spec fn spec_sqrt(x: int) -> int {
    if x <= SQRT_DOM {
        sqrt_bits(x)
    } else {
        spec_mul(sqrt_bits(spec_div(x, 4 * (FX_ONE as int))), 2 * (FX_ONE as int))
    }
}

/// Relies on `cordic::sin`: a pure function of the argument bits, defined
/// for every `I20F44` value (the angle is first reduced into a half-turn by
/// repeated subtraction of pi).
#[verifier::external_body]
fn cordic_sin(x: Fx) -> (r: Fx)
    ensures
        r.v() == sin_bits(x.v()),
{
    Fx { bits: cordic::sin(fixed::types::I20F44::from_bits(x.bits)).to_bits() }
}

/// Relies on `cordic::cos`: a pure function of the argument bits, defined
/// for every `I20F44` value.
#[verifier::external_body]
fn cordic_cos(x: Fx) -> (r: Fx)
    ensures
        r.v() == cos_bits(x.v()),
{
    Fx { bits: cordic::cos(fixed::types::I20F44::from_bits(x.bits)).to_bits() }
}

/// Relies on `cordic::atan`: a pure function of the argument bits.  Its
/// vectoring iterates are bounded by about `1.65` times the argument's
/// magnitude, so the argument is kept at most [`ATAN_DOM`] to stay well
/// inside the `I20F44` range.
#[verifier::external_body]
fn cordic_atan(x: Fx) -> (r: Fx)
    requires
        mag(x.v()) <= ATAN_DOM as int,
    ensures
        r.v() == atan_bits(x.v()),
{
    Fx { bits: cordic::atan(fixed::types::I20F44::from_bits(x.bits)).to_bits() }
}

/// Relies on `cordic::sqrt`: a pure function of the argument bits, defined
/// for nonnegative arguments.  Its bracketing step squares a power of two
/// whose square can reach four times the argument, so the argument is kept
/// at most [`SQRT_DOM`], a quarter of the `I20F44` range.
#[verifier::external_body]
fn cordic_sqrt(x: Fx) -> (r: Fx)
    requires
        0 <= x.v() <= SQRT_DOM as int,
    ensures
        r.v() == sqrt_bits(x.v()),
{
    Fx { bits: cordic::sqrt(fixed::types::I20F44::from_bits(x.bits)).to_bits() }
}

/// Sine of a scalar.
pub fn sin_fx(x: Fx) -> (r: Fx)
    ensures
        r.v() == spec_sin(x.v()),
{
    if x.bits == 0 {
        Fx::zero()
    } else {
        cordic_sin(x)
    }
}

/// Cosine of a scalar.
pub fn cos_fx(x: Fx) -> (r: Fx)
    ensures
        r.v() == spec_cos(x.v()),
{
    if x.bits == 0 {
        Fx::one()
    } else {
        cordic_cos(x)
    }
}

/// Tangent of a scalar; saturates where the cosine rounds to zero.
pub fn tan_fx(x: Fx) -> (r: Fx)
    ensures
        r.v() == spec_tan(x.v()),
{
    sin_fx(x).sat_div(cos_fx(x))
}

/// Arc sine of a scalar of magnitude at most one.
pub fn asin_fx(x: Fx) -> (r: Fx)
    requires
        mag(x.v()) <= FX_ONE as int,
    ensures
        r.v() == spec_asin(x.v()),
{
    if x.bits == 0 {
        Fx::zero()
    } else {
        let xx = x.sat_mul(x);
        proof {
            assert(mag(x.v()) * mag(x.v()) <= (FX_ONE as int) * (FX_ONE as int))
                by (nonlinear_arith)
                requires
                    0 <= mag(x.v()) <= FX_ONE as int,
            ;
            vstd::arithmetic::div_mod::lemma_div_is_ordered(
                mag(x.v()) * mag(x.v()),
                (FX_ONE as int) * (FX_ONE as int),
                FX_ONE as int,
            );
            vstd::arithmetic::div_mod::lemma_div_by_multiple(FX_ONE as int, FX_ONE as int);
            assert(xx.v() <= FX_ONE as int);
        }
        let d2 = Fx::one().sat_sub(xx);
        atan_fx(x.sat_div(sqrt_fx(d2)))
    }
}

/// Arc tangent of a scalar, total by clamping.
pub fn atan_fx(x: Fx) -> (r: Fx)
    ensures
        r.v() == spec_atan(x.v()),
{
    if x.bits > ATAN_DOM {
        cordic_atan(Fx { bits: ATAN_DOM })
    } else if x.bits < -ATAN_DOM {
        cordic_atan(Fx { bits: -ATAN_DOM })
    } else {
        cordic_atan(x)
    }
}

/// Square root of a nonnegative scalar.
pub fn sqrt_fx(x: Fx) -> (r: Fx)
    requires
        x.v() >= 0,
    ensures
        r.v() == spec_sqrt(x.v()),
{
    if x.bits <= SQRT_DOM {
        cordic_sqrt(x)
    } else {
        let quarter = x.sat_div(Fx::from_bits(4 * FX_ONE));
        proof {
            assert((mag(x.v()) * (FX_ONE as int)) / (4 * (FX_ONE as int)) <= SQRT_DOM as int)
                by (nonlinear_arith)
                requires
                    0 <= mag(x.v()) <= 0x7fffffffffffffff,
            ;
            assert((mag(x.v()) * (FX_ONE as int)) / (4 * (FX_ONE as int)) >= 0)
                by (nonlinear_arith)
                requires
                    0 <= mag(x.v()),
            ;
        }
        cordic_sqrt(quarter).sat_mul(Fx::from_bits(2 * FX_ONE))
    }
}

} // verus!
