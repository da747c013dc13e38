//! Angle conversions and linear interpolation.

use vstd::prelude::*;

use crate::fx::{spec_add, spec_div, spec_mul, spec_sub, Fx, FX_ONE};

verus! {

/// Pi at the Q19.44 scale, rounded to nearest.
pub const PI_FX: i64 = 55267482437722;

/// Half of pi at the Q19.44 scale, rounded to nearest.
pub const FRAC_PI_2_FX: i64 = 27633741218861;

/// The reciprocal of pi at the Q19.44 scale, rounded to nearest.
pub const FRAC_1_PI_FX: i64 = 5599766737522;

/// `180.0` at the Q19.44 scale.
pub const D180_FX: i64 = 180 * 17592186044416;

/// Degrees to radians: `deg * pi / 180`.
pub open spec fn spec_deg_to_rad(deg: int) -> int {
    spec_div(spec_mul(deg, PI_FX as int), D180_FX as int)
}

/// Radians to degrees: `180 * (1/pi) * rad`.
pub open spec fn spec_rad_to_deg(rad: int) -> int {
    spec_mul(spec_mul(D180_FX as int, FRAC_1_PI_FX as int), rad)
}

/// Linear interpolation `x0 * (1 - t) + x1 * t`.
pub open spec fn spec_lerp(x0: int, x1: int, t: int) -> int {
    spec_add(spec_mul(x0, spec_sub(FX_ONE as int, t)), spec_mul(x1, t))
}

pub fn deg_to_rad(deg: Fx) -> (r: Fx)
    ensures
        r.v() == spec_deg_to_rad(deg.v()),
{
    deg.sat_mul(Fx::from_bits(PI_FX)).sat_div(Fx::from_bits(D180_FX))
}

pub fn rad_to_deg(rad: Fx) -> (r: Fx)
    ensures
        r.v() == spec_rad_to_deg(rad.v()),
{
    Fx::from_bits(D180_FX).sat_mul(Fx::from_bits(FRAC_1_PI_FX)).sat_mul(rad)
}

pub fn lerp(x0: Fx, x1: Fx, t: Fx) -> (r: Fx)
    ensures
        r.v() == spec_lerp(x0.v(), x1.v(), t.v()),
{
    x0.sat_mul(Fx::one().sat_sub(t)).sat_add(x1.sat_mul(t))
}

} // verus!
