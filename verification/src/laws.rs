//! General properties of the tracing kernel, stated and proved once over
//! the specification functions that the executable code is verified
//! against.

use vstd::prelude::*;

use crate::boundary::BoundaryType;
use crate::fx::{
    lemma_div_self, lemma_mul_one, lemma_mul_one_right, lemma_mul_zero, mag, sat, spec_abs,
    spec_add, spec_div, spec_mul, spec_sub, Fx, FX_MAX, FX_MIN, FX_ONE,
};
use crate::ray::{
    conic_refract, spec_step, spec_step_conic, spec_step_line, spec_step_spherical, spec_tir,
    PathState, StepOutcome,
};
use crate::sim::{spec_launch_angle, spec_launch_y, spec_run, spec_t, Mode};
use crate::trig::{spec_asin, spec_sin, spec_tan};
use crate::util::{spec_deg_to_rad, spec_lerp, spec_rad_to_deg};

verus! {

/// A ray on the optical axis stays on the optical axis across one step of
/// any boundary: if it hits, the new height is exactly zero and the new
/// propagation angle is exactly zero.
pub proof fn lemma_on_axis_step(st: PathState, b: BoundaryType)
    requires
        st.y == 0,
        st.angle == 0,
    ensures
        match spec_step(st, b) {
            StepOutcome::Hit(h) => h.y == 0 && h.angle == 0,
            StepOutcome::Stop { .. } => true,
        },
{
    reveal(spec_step_line);
    reveal(spec_step_spherical);
    reveal(spec_step_conic);
    reveal(conic_refract);
    broadcast use lemma_mul_zero;

    assert(spec_tan(0) == 0);
}

/// A ray launched on the optical axis stays on the axis at every recorded
/// boundary hit, with a reported angle of exactly zero, through any
/// boundary sequence.
pub proof fn lemma_on_axis_run(st: PathState, bs: Seq<BoundaryType>, cursor: int)
    requires
        st.y == 0,
        st.angle == 0,
    ensures
        forall|j: int|
            0 <= j < spec_run(st, bs, cursor).0.len() ==> {
                let g = #[trigger] spec_run(st, bs, cursor).0[j];
                g.y == 0 && g.angle_deg == 0
            },
    decreases bs.len() - cursor,
{
    broadcast use lemma_mul_zero;

    if cursor < 0 || cursor >= bs.len() {
    } else {
        match spec_step(st, bs[cursor]) {
            StepOutcome::Hit(h) => {
                lemma_on_axis_step(st, bs[cursor]);
                lemma_on_axis_run(h, bs, cursor + 1);
                assert(spec_rad_to_deg(0) == 0);
                let run = spec_run(st, bs, cursor);
                let rest = spec_run(h, bs, cursor + 1);
                assert forall|j: int| 0 <= j < run.0.len() implies {
                    let g = #[trigger] run.0[j];
                    g.y == 0 && g.angle_deg == 0
                } by {
                    if j > 0 {
                        assert(run.0[j] == rest.0[j - 1]);
                    }
                }
            },
            StepOutcome::Stop { .. } => {},
        }
    }
}

/// Propagation is bounded: a run from `cursor` records at most one sample
/// per remaining boundary.
pub proof fn lemma_run_bounded(st: PathState, bs: Seq<BoundaryType>, cursor: int)
    ensures
        spec_run(st, bs, cursor).0.len() <= (if 0 <= cursor < bs.len() {
            bs.len() - cursor
        } else {
            0
        }),
    decreases bs.len() - cursor,
{
    if cursor < 0 || cursor >= bs.len() {
    } else {
        match spec_step(st, bs[cursor]) {
            StepOutcome::Hit(h) => {
                lemma_run_bounded(h, bs, cursor + 1);
            },
            StepOutcome::Stop { .. } => {},
        }
    }
}

/// Total internal reflection at a flat boundary into a thinner medium is
/// decided exactly by the critical angle `asin(n' / n)`: within the
/// aperture, an incidence angle strictly beyond it terminates the ray
/// with total internal reflection — left on the boundary's plane at the
/// computed height, its angle and index untouched — while an angle at
/// the critical angle or strictly inside it refracts (provided the Snell
/// ratio stays inside the arc sine's domain, the defensive backstop
/// aside).
pub proof fn lemma_critical_angle_line(
    x: int,
    y: int,
    angle: int,
    n: int,
    opt_idx: int,
    midpoint: int,
    height: int,
)
    requires
        0 <= opt_idx < n,
    ensures
        ({
            let res = spec_step_line(x, y, angle, n, opt_idx, midpoint, height);
            let y2 = spec_add(y, spec_mul(spec_sub(midpoint, x), spec_tan(angle)));
            let critical = spec_abs(spec_asin(spec_div(opt_idx, n)));
            let snell = spec_mul(spec_div(n, opt_idx), spec_sin(angle));
            &&& spec_tir(angle, n, opt_idx) == (spec_abs(angle) > critical)
            &&& (spec_abs(y2) <= height && spec_abs(angle) > critical ==> res
                == (StepOutcome::Stop {
                reason: crate::ray::TermReason::TotalInternalReflection,
                x: spec_add(x, spec_sub(midpoint, x)),
                y: y2,
            }))
            &&& (spec_abs(y2) <= height && spec_abs(angle) <= critical && mag(snell)
                <= FX_ONE as int ==> res == StepOutcome::Hit(
                PathState {
                    x: spec_add(x, spec_sub(midpoint, x)),
                    y: y2,
                    angle: spec_asin(snell),
                    n: opt_idx,
                },
            ))
        }),
{
    reveal(spec_step_line);
    let p = opt_idx * (FX_ONE as int);
    vstd::arithmetic::div_mod::lemma_fundamental_div_mod(p, n);
    assert(p < n * (FX_ONE as int)) by (nonlinear_arith)
        requires
            0 <= opt_idx < n,
            p == opt_idx * (FX_ONE as int),
    ;
    assert(p / n <= FX_ONE as int) by (nonlinear_arith)
        requires
            n > 0,
            p == n * (p / n) + p % n,
            0 <= p % n,
            p < n * (FX_ONE as int),
    ;
    assert(mag(spec_div(opt_idx, n)) <= FX_ONE as int);
}

/// Refraction with equal indices on both sides of a flat boundary never
/// reports total internal reflection, and (within the aperture and the
/// arc sine's domain) turns the angle into `asin(sin(angle))`: the Snell
/// ratio is exactly one.
pub proof fn lemma_identity_refraction(
    x: int,
    y: int,
    angle: int,
    n: int,
    midpoint: int,
    height: int,
)
    requires
        n > 0,
    ensures
        !spec_tir(angle, n, n),
        ({
            let res = spec_step_line(x, y, angle, n, n, midpoint, height);
            let y2 = spec_add(y, spec_mul(spec_sub(midpoint, x), spec_tan(angle)));
            spec_abs(y2) <= height && mag(spec_sin(angle)) <= FX_ONE as int ==> res
                == StepOutcome::Hit(
                PathState {
                    x: spec_add(x, spec_sub(midpoint, x)),
                    y: y2,
                    angle: spec_asin(spec_sin(angle)),
                    n: n,
                },
            )
        }),
{
    reveal(spec_step_line);
    lemma_div_self(n);
    lemma_mul_one(spec_sin(angle));
}

/// On the optical axis with equal indices, a flat boundary moves the ray
/// to its plane and changes nothing else: height and angle stay exactly
/// zero.
pub proof fn lemma_identity_refraction_axis(x: int, n: int, midpoint: int, height: int)
    requires
        n > 0,
        height >= 0,
    ensures
        spec_step_line(x, 0, 0, n, n, midpoint, height) == StepOutcome::Hit(
            PathState { x: spec_add(x, spec_sub(midpoint, x)), y: 0, angle: 0, n: n },
        ),
{
    reveal(spec_step_line);
    broadcast use lemma_mul_zero;

    lemma_div_self(n);
    assert(spec_tan(0) == 0);
}

/// The interpolation of the driver is inclusive of both bounds: sample
/// `0` of `n + 1` sits exactly at the lower bound and sample `n` exactly
/// at the upper one.
pub proof fn lemma_interpolation_bounds(lo: int, hi: int, n: int)
    requires
        1 <= n,
        FX_MIN as int <= lo <= FX_MAX as int,
        FX_MIN as int <= hi <= FX_MAX as int,
    ensures
        spec_lerp(lo, hi, spec_t(0, n)) == lo,
        spec_lerp(lo, hi, spec_t(n, n)) == hi,
{
    broadcast use lemma_mul_zero;

    let b = sat(n * (FX_ONE as int));
    assert(n * (FX_ONE as int) >= FX_ONE as int) by (nonlinear_arith)
        requires
            n >= 1,
    ;
    assert(b != 0);
    assert(spec_t(0, n) == 0);
    lemma_div_self(b);
    assert(spec_t(n, n) == FX_ONE as int);
    lemma_mul_one_right(lo);
    lemma_mul_one_right(hi);
}

/// A ray array's launch heights run inclusively from the minimum height
/// to the maximum height.
pub proof fn lemma_array_sample_heights(
    n_rays: usize,
    min_height: Fx,
    max_height: Fx,
    o_y: int,
)
    requires
        1 <= n_rays,
        FX_MIN as int <= min_height.v() <= FX_MAX as int,
        FX_MIN as int <= max_height.v() <= FX_MAX as int,
    ensures
        spec_launch_y(Mode::RayArray { n_rays, min_height, max_height }, o_y, 0)
            == min_height.v(),
        spec_launch_y(Mode::RayArray { n_rays, min_height, max_height }, o_y, n_rays as int)
            == max_height.v(),
{
    lemma_interpolation_bounds(min_height.v(), max_height.v(), n_rays as int);
}

/// A ray fan's launch angles run inclusively from the minimum angle to
/// the maximum angle, after the optional degree conversion of the bounds.
pub proof fn lemma_fan_sample_angles(
    n_rays: usize,
    min_angle: Fx,
    max_angle: Fx,
    in_deg: bool,
    o_angle: int,
)
    requires
        1 <= n_rays,
        FX_MIN as int <= min_angle.v() <= FX_MAX as int,
        FX_MIN as int <= max_angle.v() <= FX_MAX as int,
    ensures
        ({
            let mode = Mode::RayFan { n_rays, min_angle, max_angle, in_deg };
            let lo = if in_deg {
                spec_deg_to_rad(min_angle.v())
            } else {
                min_angle.v()
            };
            let hi = if in_deg {
                spec_deg_to_rad(max_angle.v())
            } else {
                max_angle.v()
            };
            &&& spec_launch_angle(mode, o_angle, 0) == lo
            &&& spec_launch_angle(mode, o_angle, n_rays as int) == hi
        }),
{
    let lo = if in_deg {
        spec_deg_to_rad(min_angle.v())
    } else {
        min_angle.v()
    };
    let hi = if in_deg {
        spec_deg_to_rad(max_angle.v())
    } else {
        max_angle.v()
    };
    lemma_interpolation_bounds(lo, hi, n_rays as int);
}

} // verus!
