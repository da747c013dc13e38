//! The per-ray tracing kernel: intersection, refraction, and the stepping
//! state machine.
//!
//! Each boundary kind has a specification function
//! ([`spec_step_line`], [`spec_step_spherical`], [`spec_step_conic`]) that
//! pins down, over the fixed-point model, exactly what one step computes
//! and on which conditions it terminates instead, and an executable twin
//! proved equal to it.  [`Ray::next_boundary`] drives the state machine:
//! the boundary cursor is incremented before the outcome of the step is
//! known, so a failing boundary is still consumed and its index is the one
//! blamed in diagnostics.

use vstd::prelude::*;

use crate::boundary::BoundaryType;
use crate::fx::{
    mag, spec_abs, spec_add, spec_div, spec_mul, spec_neg, spec_sub, Fx, FX_MIN, FX_ONE,
};
use crate::trig::{
    asin_fx, atan_fx, cos_fx, sin_fx, spec_asin, spec_atan, spec_cos, spec_sin, spec_sqrt,
    spec_tan, sqrt_fx, tan_fx,
};
use crate::util::FRAC_PI_2_FX;

verus! {

/// Why a ray stopped propagating.
#[derive(Clone, Copy, PartialEq, Eq, Structural, Debug)]
pub enum TermReason {
    /// The intersection point lies beyond the boundary's half-aperture.
    OutOfAperture,
    /// The ray does not meet the surface at all.
    NoIntersection,
    /// The refraction has no real solution: total internal reflection, or
    /// the defensive backstop on the refraction algebra.
    TotalInternalReflection,
    /// Every boundary of the sequence has been traversed.
    Exhausted,
}

/// The two states of the per-ray state machine.
#[derive(Clone, Copy, PartialEq, Eq, Structural, Debug)]
pub enum RayStatus {
    Propagating,
    Terminated(TermReason),
}

/// The mathematical state of a travelling ray: position, propagation
/// angle, and the refractive index of the medium it is in.
pub struct PathState {
    pub x: int,
    pub y: int,
    pub angle: int,
    pub n: int,
}

/// What one boundary does to a ray, at specification level.  A
/// termination still reports the position the step had already computed
/// when the failing check ran: the position updates precede the aperture,
/// reflection and backstop tests (only a missing intersection leaves the
/// position untouched), while the angle and the medium index are never
/// updated on a termination.
pub enum StepOutcome {
    Hit(PathState),
    Stop { reason: TermReason, x: int, y: int },
}

/// What one boundary does to a ray, at executable level.
pub enum StepResult {
    Hit { x: Fx, y: Fx, angle: Fx, n: Fx },
    Stop { reason: TermReason, x: Fx, y: Fx },
}

/// The executable step result denotes the specification outcome.
pub open spec fn res_agrees(r: StepResult, s: StepOutcome) -> bool {
    match r {
        StepResult::Hit { x, y, angle, n } => s == StepOutcome::Hit(
            PathState { x: x.v(), y: y.v(), angle: angle.v(), n: n.v() },
        ),
        StepResult::Stop { reason, x, y } => s == (StepOutcome::Stop {
            reason,
            x: x.v(),
            y: y.v(),
        }),
    }
}

/// Total internal reflection test: when the next medium is optically
/// thinner, the critical angle is the arc sine of the index ratio, and the
/// ray is reflected when the incidence angle's magnitude exceeds it.  A
/// ratio outside the arc sine's domain (possible only for indices a valid
/// configuration does not have) never reports reflection.
pub open spec fn spec_tir(angle: int, cur: int, next: int) -> bool {
    &&& next < cur
    &&& mag(spec_div(next, cur)) <= FX_ONE as int
    &&& spec_abs(angle) > spec_abs(spec_asin(spec_div(next, cur)))
}

/// One step against a flat boundary at `midpoint`: advance to the plane
/// along the current direction, then refract against the axis-aligned
/// normal.
#[verifier::opaque]
pub open spec fn spec_step_line(
    x: int,
    y: int,
    angle: int,
    n: int,
    opt_idx: int,
    midpoint: int,
    height: int,
) -> StepOutcome {
    let delta_x = spec_sub(midpoint, x);
    let delta_y = spec_mul(delta_x, spec_tan(angle));
    let y2 = spec_add(y, delta_y);
    if spec_abs(y2) > height {
        // The aperture is tested before the ray is moved.
        StepOutcome::Stop { reason: TermReason::OutOfAperture, x, y }
    } else {
        let x2 = spec_add(x, delta_x);
        if spec_tir(angle, n, opt_idx) {
            StepOutcome::Stop { reason: TermReason::TotalInternalReflection, x: x2, y: y2 }
        } else {
            let s = spec_mul(spec_div(n, opt_idx), spec_sin(angle));
            if mag(s) > FX_ONE as int {
                StepOutcome::Stop { reason: TermReason::TotalInternalReflection, x: x2, y: y2 }
            } else {
                StepOutcome::Hit(PathState { x: x2, y: y2, angle: spec_asin(s), n: opt_idx })
            }
        }
    }
}

/// One step against a circular arc whose center sits on the axis at
/// `midpoint`: solve for the arc angle of the intersection, then refract
/// against the radial normal.
#[verifier::opaque]
pub open spec fn spec_step_spherical(
    x: int,
    y: int,
    angle: int,
    n: int,
    opt_idx: int,
    midpoint: int,
    radius: int,
    height: int,
) -> StepOutcome {
    let tmp = spec_mul(
        spec_div(spec_abs(spec_cos(angle)), radius),
        spec_add(spec_mul(spec_tan(angle), spec_sub(midpoint, x)), y),
    );
    if mag(tmp) > FX_ONE as int {
        // No intersection: the position was never computed.
        StepOutcome::Stop { reason: TermReason::NoIntersection, x, y }
    } else {
        let inter = spec_add(spec_neg(spec_asin(tmp)), angle);
        let x2 = spec_sub(midpoint, spec_mul(radius, spec_cos(inter)));
        let y2 = spec_neg(spec_mul(radius, spec_sin(inter)));
        if spec_abs(y2) > height {
            // The ray is moved to the arc before the aperture is tested.
            StepOutcome::Stop { reason: TermReason::OutOfAperture, x: x2, y: y2 }
        } else {
            let alpha = spec_sub(inter, angle);
            if spec_tir(alpha, n, opt_idx) {
                StepOutcome::Stop { reason: TermReason::TotalInternalReflection, x: x2, y: y2 }
            } else {
                let s = spec_mul(spec_div(n, opt_idx), spec_sin(alpha));
                if mag(s) > FX_ONE as int {
                    StepOutcome::Stop {
                        reason: TermReason::TotalInternalReflection,
                        x: x2,
                        y: y2,
                    }
                } else {
                    StepOutcome::Hit(
                        PathState {
                            x: x2,
                            y: y2,
                            angle: spec_sub(inter, spec_asin(s)),
                            n: opt_idx,
                        },
                    )
                }
            }
        }
    }
}

/// One step against a conic with vertex at `midpoint`: substitute the ray
/// into the conic's implicit form, pick the quadratic root by the signs of
/// the radius and the conic parameter, then refract against the normal
/// derived from the implicit derivative, selecting among four arc tangent
/// branches by the half-plane of the intersection crossed with the sign of
/// the radius.  An intersection exactly on the axis refracts as at normal
/// incidence.
#[verifier::opaque]
pub open spec fn spec_step_conic(
    x: int,
    y: int,
    angle: int,
    n: int,
    opt_idx: int,
    midpoint: int,
    radius: int,
    k: int,
    height: int,
) -> StepOutcome {
    let two = 2 * (FX_ONE as int);
    let t = spec_tan(angle);
    let one_k = spec_add(FX_ONE as int, k);
    let xm = spec_sub(x, midpoint);
    let c0 = spec_neg(spec_add(one_k, spec_mul(t, t)));
    let c1 = spec_mul(two, spec_sub(spec_sub(radius, spec_mul(one_k, xm)), spec_mul(y, t)));
    let c2 = spec_sub(
        spec_sub(spec_mul(spec_mul(two, radius), xm), spec_mul(one_k, spec_mul(xm, xm))),
        spec_mul(y, y),
    );
    let p = spec_div(c1, c0);
    let q = spec_div(c2, c0);
    let ph = spec_div(p, two);
    let det = spec_sub(spec_mul(ph, ph), q);
    if det < 0 {
        // No real root: the position was never computed.
        StepOutcome::Stop { reason: TermReason::NoIntersection, x, y }
    } else {
        let root = if radius > 0 {
            if k >= -(FX_ONE as int) {
                spec_sub(spec_neg(ph), spec_sqrt(det))
            } else {
                spec_add(spec_neg(ph), spec_sqrt(det))
            }
        } else {
            spec_add(spec_neg(ph), spec_sqrt(det))
        };
        let a = if c0 == 0 {
            spec_div(spec_neg(c2), c1)
        } else {
            root
        };
        let x2 = spec_add(x, a);
        let y2 = spec_add(y, spec_mul(a, t));
        if spec_abs(y2) > height {
            // The ray is moved along the root before the aperture test.
            StepOutcome::Stop { reason: TermReason::OutOfAperture, x: x2, y: y2 }
        } else {
            let xm2 = spec_sub(x2, midpoint);
            let den2 = spec_sub(
                spec_mul(spec_mul(two, xm2), radius),
                spec_mul(spec_mul(xm2, xm2), one_k),
            );
            if den2 < 0 {
                StepOutcome::Stop { reason: TermReason::TotalInternalReflection, x: x2, y: y2 }
            } else {
                let diff = spec_div(spec_sub(radius, spec_mul(one_k, xm2)), spec_sqrt(den2));
                conic_refract(y2, x2, angle, n, opt_idx, radius, diff)
            }
        }
    }
}

/// The four arc tangent branches of the conic refraction, plus the on-axis
/// case, shared by [`spec_step_conic`].
#[verifier::opaque]
pub open spec fn conic_refract(
    y2: int,
    x2: int,
    angle: int,
    n: int,
    opt_idx: int,
    radius: int,
    diff: int,
) -> StepOutcome {
    let pi2 = FRAC_PI_2_FX as int;
    let ratio = spec_div(n, opt_idx);
    if y2 < 0 {
        if radius > 0 {
            let inter = spec_neg(spec_atan(diff));
            let alpha = spec_add(spec_sub(spec_neg(pi2), inter), angle);
            let s = spec_mul(ratio, spec_sin(alpha));
            if mag(s) > FX_ONE as int {
                StepOutcome::Stop { reason: TermReason::TotalInternalReflection, x: x2, y: y2 }
            } else {
                StepOutcome::Hit(
                    PathState {
                        x: x2,
                        y: y2,
                        angle: spec_add(spec_add(pi2, inter), spec_asin(s)),
                        n: opt_idx,
                    },
                )
            }
        } else {
            let inter = spec_atan(diff);
            let alpha = spec_sub(spec_sub(spec_neg(pi2), inter), angle);
            let s = spec_mul(ratio, spec_sin(alpha));
            if mag(s) > FX_ONE as int {
                StepOutcome::Stop { reason: TermReason::TotalInternalReflection, x: x2, y: y2 }
            } else {
                StepOutcome::Hit(
                    PathState {
                        x: x2,
                        y: y2,
                        angle: spec_sub(spec_sub(spec_neg(pi2), inter), spec_asin(s)),
                        n: opt_idx,
                    },
                )
            }
        }
    } else if y2 > 0 {
        if radius > 0 {
            let inter = spec_atan(diff);
            let alpha = spec_add(spec_sub(pi2, inter), angle);
            let s = spec_mul(ratio, spec_sin(alpha));
            if mag(s) > FX_ONE as int {
                StepOutcome::Stop { reason: TermReason::TotalInternalReflection, x: x2, y: y2 }
            } else {
                StepOutcome::Hit(
                    PathState {
                        x: x2,
                        y: y2,
                        angle: spec_add(spec_add(spec_neg(pi2), inter), spec_asin(s)),
                        n: opt_idx,
                    },
                )
            }
        } else {
            let inter = spec_atan(spec_neg(diff));
            let alpha = spec_sub(spec_sub(pi2, inter), angle);
            let s = spec_mul(ratio, spec_sin(alpha));
            if mag(s) > FX_ONE as int {
                StepOutcome::Stop { reason: TermReason::TotalInternalReflection, x: x2, y: y2 }
            } else {
                StepOutcome::Hit(
                    PathState {
                        x: x2,
                        y: y2,
                        angle: spec_sub(spec_sub(pi2, inter), spec_asin(s)),
                        n: opt_idx,
                    },
                )
            }
        }
    } else {
        let s = spec_mul(ratio, spec_sin(angle));
        if mag(s) > FX_ONE as int {
            StepOutcome::Stop { reason: TermReason::TotalInternalReflection, x: x2, y: y2 }
        } else {
            StepOutcome::Hit(
                PathState { x: x2, y: y2, angle: spec_asin(s), n: opt_idx },
            )
        }
    }
}

/// Dispatch one step over the boundary kinds.
pub open spec fn spec_step(st: PathState, b: BoundaryType) -> StepOutcome {
    match b {
        BoundaryType::Line { opt_idx, midpoint, height } => spec_step_line(
            st.x,
            st.y,
            st.angle,
            st.n,
            opt_idx.v(),
            midpoint.v(),
            height.v(),
        ),
        BoundaryType::Spherical { opt_idx, midpoint, radius, height } => spec_step_spherical(
            st.x,
            st.y,
            st.angle,
            st.n,
            opt_idx.v(),
            midpoint.v(),
            radius.v(),
            height.v(),
        ),
        BoundaryType::Conic { opt_idx, midpoint, radius, conic_param, height } => spec_step_conic(
            st.x,
            st.y,
            st.angle,
            st.n,
            opt_idx.v(),
            midpoint.v(),
            radius.v(),
            conic_param.v(),
            height.v(),
        ),
    }
}

/// Refract the Snell ratio `ratio * sin(alpha)`; `None` is the defensive
/// backstop for an argument outside the arc sine's domain.
fn snell_asin(ratio: Fx, alpha: Fx) -> (r: Option<Fx>)
    ensures
        ({
            let s = spec_mul(ratio.v(), spec_sin(alpha.v()));
            match r {
                Some(a) => mag(s) <= FX_ONE as int && a.v() == spec_asin(s),
                None => mag(s) > FX_ONE as int,
            }
        }),
{
    let s = ratio.sat_mul(sin_fx(alpha));
    if s.sat_abs().le(Fx::one()) {
        proof {
            assert(mag(s.v()) <= FX_ONE as int);
        }
        Some(asin_fx(s))
    } else {
        None
    }
}

/// Executable twin of [`spec_step_line`].
pub fn step_line(
    x: Fx,
    y: Fx,
    angle: Fx,
    n: Fx,
    opt_idx: Fx,
    midpoint: Fx,
    height: Fx,
) -> (res: StepResult)
    ensures
        res_agrees(
            res,
            spec_step_line(x.v(), y.v(), angle.v(), n.v(), opt_idx.v(), midpoint.v(), height.v()),
        ),
{
    proof {
        reveal(spec_step_line);
    }
    let delta_x = midpoint.sat_sub(x);
    let delta_y = delta_x.sat_mul(tan_fx(angle));
    let y2 = y.sat_add(delta_y);
    if y2.sat_abs().gt(height) {
        return StepResult::Stop { reason: TermReason::OutOfAperture, x, y };
    }
    let x2 = x.sat_add(delta_x);
    if Ray::check_total_reflection(angle, n, opt_idx) {
        return StepResult::Stop { reason: TermReason::TotalInternalReflection, x: x2, y: y2 };
    }
    match snell_asin(n.sat_div(opt_idx), angle) {
        None => StepResult::Stop { reason: TermReason::TotalInternalReflection, x: x2, y: y2 },
        Some(a) => StepResult::Hit { x: x2, y: y2, angle: a, n: opt_idx },
    }
}

/// Executable twin of [`spec_step_spherical`].
pub fn step_spherical(
    x: Fx,
    y: Fx,
    angle: Fx,
    n: Fx,
    opt_idx: Fx,
    midpoint: Fx,
    radius: Fx,
    height: Fx,
) -> (res: StepResult)
    ensures
        res_agrees(
            res,
            spec_step_spherical(
                x.v(),
                y.v(),
                angle.v(),
                n.v(),
                opt_idx.v(),
                midpoint.v(),
                radius.v(),
                height.v(),
            ),
        ),
{
    proof {
        reveal(spec_step_spherical);
    }
    let tmp = cos_fx(angle).sat_abs().sat_div(radius).sat_mul(
        tan_fx(angle).sat_mul(midpoint.sat_sub(x)).sat_add(y),
    );
    if tmp.sat_abs().gt(Fx::one()) {
        return StepResult::Stop { reason: TermReason::NoIntersection, x, y };
    }
    proof {
        assert(mag(tmp.v()) <= FX_ONE as int);
    }
    let inter = asin_fx(tmp).sat_neg().sat_add(angle);
    let x2 = midpoint.sat_sub(radius.sat_mul(cos_fx(inter)));
    let y2 = radius.sat_mul(sin_fx(inter)).sat_neg();
    if y2.sat_abs().gt(height) {
        return StepResult::Stop { reason: TermReason::OutOfAperture, x: x2, y: y2 };
    }
    let alpha = inter.sat_sub(angle);
    if Ray::check_total_reflection(alpha, n, opt_idx) {
        return StepResult::Stop { reason: TermReason::TotalInternalReflection, x: x2, y: y2 };
    }
    match snell_asin(n.sat_div(opt_idx), alpha) {
        None => StepResult::Stop { reason: TermReason::TotalInternalReflection, x: x2, y: y2 },
        Some(a) => StepResult::Hit { x: x2, y: y2, angle: inter.sat_sub(a), n: opt_idx },
    }
}

/// Executable twin of [`spec_step_conic`].
pub fn step_conic(
    x: Fx,
    y: Fx,
    angle: Fx,
    n: Fx,
    opt_idx: Fx,
    midpoint: Fx,
    radius: Fx,
    conic_param: Fx,
    height: Fx,
) -> (res: StepResult)
    ensures
        res_agrees(
            res,
            spec_step_conic(
                x.v(),
                y.v(),
                angle.v(),
                n.v(),
                opt_idx.v(),
                midpoint.v(),
                radius.v(),
                conic_param.v(),
                height.v(),
            ),
        ),
{
    proof {
        reveal(spec_step_conic);
        reveal(conic_refract);
    }
    let two = Fx::from_bits(2 * FX_ONE);
    let t = tan_fx(angle);
    let one_k = Fx::one().sat_add(conic_param);
    let xm = x.sat_sub(midpoint);
    let c0 = one_k.sat_add(t.sat_mul(t)).sat_neg();
    let c1 = two.sat_mul(radius.sat_sub(one_k.sat_mul(xm)).sat_sub(y.sat_mul(t)));
    let c2 = two.sat_mul(radius).sat_mul(xm).sat_sub(one_k.sat_mul(xm.sat_mul(xm))).sat_sub(
        y.sat_mul(y),
    );
    let p = c1.sat_div(c0);
    let q = c2.sat_div(c0);
    let ph = p.sat_div(two);
    let det = ph.sat_mul(ph).sat_sub(q);
    if det.lt(Fx::zero()) {
        return StepResult::Stop { reason: TermReason::NoIntersection, x, y };
    }
    let root = if radius.gt(Fx::zero()) {
        if conic_param.bits >= -FX_ONE {
            ph.sat_neg().sat_sub(sqrt_fx(det))
        } else {
            ph.sat_neg().sat_add(sqrt_fx(det))
        }
    } else {
        ph.sat_neg().sat_add(sqrt_fx(det))
    };
    let a = if c0.is_zero() {
        c2.sat_neg().sat_div(c1)
    } else {
        root
    };
    let x2 = x.sat_add(a);
    let y2 = y.sat_add(a.sat_mul(t));
    if y2.sat_abs().gt(height) {
        return StepResult::Stop { reason: TermReason::OutOfAperture, x: x2, y: y2 };
    }
    let xm2 = x2.sat_sub(midpoint);
    let den2 = two.sat_mul(xm2).sat_mul(radius).sat_sub(xm2.sat_mul(xm2).sat_mul(one_k));
    if den2.lt(Fx::zero()) {
        return StepResult::Stop { reason: TermReason::TotalInternalReflection, x: x2, y: y2 };
    }
    let diff = radius.sat_sub(one_k.sat_mul(xm2)).sat_div(sqrt_fx(den2));
    let pi2 = Fx::from_bits(FRAC_PI_2_FX);
    let ratio = n.sat_div(opt_idx);
    if y2.lt(Fx::zero()) {
        if radius.gt(Fx::zero()) {
            let inter = atan_fx(diff).sat_neg();
            let alpha = pi2.sat_neg().sat_sub(inter).sat_add(angle);
            match snell_asin(ratio, alpha) {
                None => StepResult::Stop { reason: TermReason::TotalInternalReflection, x: x2, y: y2 },
                Some(asn) => StepResult::Hit {
                    x: x2,
                    y: y2,
                    angle: pi2.sat_add(inter).sat_add(asn),
                    n: opt_idx,
                },
            }
        } else {
            let inter = atan_fx(diff);
            let alpha = pi2.sat_neg().sat_sub(inter).sat_sub(angle);
            match snell_asin(ratio, alpha) {
                None => StepResult::Stop { reason: TermReason::TotalInternalReflection, x: x2, y: y2 },
                Some(asn) => StepResult::Hit {
                    x: x2,
                    y: y2,
                    angle: pi2.sat_neg().sat_sub(inter).sat_sub(asn),
                    n: opt_idx,
                },
            }
        }
    } else if y2.gt(Fx::zero()) {
        if radius.gt(Fx::zero()) {
            let inter = atan_fx(diff);
            let alpha = pi2.sat_sub(inter).sat_add(angle);
            match snell_asin(ratio, alpha) {
                None => StepResult::Stop { reason: TermReason::TotalInternalReflection, x: x2, y: y2 },
                Some(asn) => StepResult::Hit {
                    x: x2,
                    y: y2,
                    angle: pi2.sat_neg().sat_add(inter).sat_add(asn),
                    n: opt_idx,
                },
            }
        } else {
            let inter = atan_fx(diff.sat_neg());
            let alpha = pi2.sat_sub(inter).sat_sub(angle);
            match snell_asin(ratio, alpha) {
                None => StepResult::Stop { reason: TermReason::TotalInternalReflection, x: x2, y: y2 },
                Some(asn) => StepResult::Hit {
                    x: x2,
                    y: y2,
                    angle: pi2.sat_sub(inter).sat_sub(asn),
                    n: opt_idx,
                },
            }
        }
    } else {
        match snell_asin(ratio, angle) {
            None => StepResult::Stop { reason: TermReason::TotalInternalReflection, x: x2, y: y2 },
            Some(asn) => StepResult::Hit { x: x2, y: y2, angle: asn, n: opt_idx },
        }
    }
}

/// The immutable launch description of a ray: starting position, launch
/// angle, starting medium index, and the boundary sequence to traverse.
pub struct RayTemplate {
    pub x: Fx,
    pub y: Fx,
    pub angle: Fx,
    pub o_idx: Fx,
    pub boundaries: Vec<BoundaryType>,
}

/// A ray being traced: the launch template (`o_*` fields), the mutable
/// propagation state, the next-boundary cursor, and the machine status.
pub struct Ray {
    pub o_x: Fx,
    pub o_y: Fx,
    pub o_angle: Fx,
    pub o_n: Fx,
    pub x: Fx,
    pub y: Fx,
    pub angle: Fx,
    pub cur_idx: Fx,
    pub boundary: usize,
    pub boundaries: Vec<BoundaryType>,
    pub status: RayStatus,
}

/// How one call of [`Ray::next_boundary`] relates the ray before (`pre`)
/// and after (`post`): the launch template and the boundary sequence never
/// change; a terminated ray stays exactly as it is; at the end of the
/// sequence the status becomes `Exhausted`; otherwise the cursor advances
/// by one and the boundary at the pre-increment cursor either updates the
/// propagation state per [`spec_step`] or terminates the ray.  A
/// termination keeps the position the step had already computed when the
/// failing check ran and never updates the angle or the medium index.
pub open spec fn step_rel(pre: Ray, post: Ray, cont: bool) -> bool {
    &&& post.o_x == pre.o_x
    &&& post.o_y == pre.o_y
    &&& post.o_angle == pre.o_angle
    &&& post.o_n == pre.o_n
    &&& post.boundaries == pre.boundaries
    &&& cont == (post.status is Propagating)
    &&& match pre.status {
        RayStatus::Terminated(_) => post == pre,
        RayStatus::Propagating => {
            if pre.boundary >= pre.boundaries.len() {
                &&& post.x == pre.x
                &&& post.y == pre.y
                &&& post.angle == pre.angle
                &&& post.cur_idx == pre.cur_idx
                &&& post.boundary == pre.boundary
                &&& post.status == RayStatus::Terminated(TermReason::Exhausted)
            } else {
                &&& post.boundary == pre.boundary + 1
                &&& match spec_step(pre.path_state(), pre.boundaries[pre.boundary as int]) {
                    StepOutcome::Hit(h) => {
                        &&& post.x.v() == h.x
                        &&& post.y.v() == h.y
                        &&& post.angle.v() == h.angle
                        &&& post.cur_idx.v() == h.n
                        &&& post.status is Propagating
                    },
                    StepOutcome::Stop { reason, x, y } => {
                        &&& post.x.v() == x
                        &&& post.y.v() == y
                        &&& post.angle == pre.angle
                        &&& post.cur_idx == pre.cur_idx
                        &&& post.status == RayStatus::Terminated(reason)
                    },
                }
            }
        },
    }
}

impl Ray {
    /// The mathematical state of this ray's travelling point.
    pub open spec fn path_state(self) -> PathState {
        PathState { x: self.x.v(), y: self.y.v(), angle: self.angle.v(), n: self.cur_idx.v() }
    }

    /// Build a ray from its launch template.  The propagation angle starts
    /// at zero; [`Ray::reset`] installs the angle of a concrete sample.
    pub fn from_template(template: RayTemplate) -> (r: Ray)
        ensures
            r.o_x == template.x,
            r.o_y == template.y,
            r.o_angle == template.angle,
            r.o_n == template.o_idx,
            r.x == template.x,
            r.y == template.y,
            r.angle.v() == 0,
            r.cur_idx == template.o_idx,
            r.boundary == 0,
            r.boundaries == template.boundaries,
            r.status is Propagating,
    {
        Ray {
            o_x: template.x,
            o_y: template.y,
            o_n: template.o_idx,
            o_angle: template.angle,
            x: template.x,
            y: template.y,
            cur_idx: template.o_idx,
            angle: Fx::zero(),
            boundary: 0,
            boundaries: template.boundaries,
            status: RayStatus::Propagating,
        }
    }

    /// Executable twin of [`spec_tir`].
    pub fn check_total_reflection(angle: Fx, cur_n: Fx, next_n: Fx) -> (b: bool)
        ensures
            b == spec_tir(angle.v(), cur_n.v(), next_n.v()),
    {
        if next_n.lt(cur_n) {
            let ratio = next_n.sat_div(cur_n);
            if ratio.sat_abs().le(Fx::one()) {
                proof {
                    assert(mag(ratio.v()) <= FX_ONE as int);
                }
                let alpha_g = asin_fx(ratio).sat_abs();
                angle.sat_abs().gt(alpha_g)
            } else {
                false
            }
        } else {
            false
        }
    }

    /// Reinitialize the mutable state for a new sample with the given
    /// launch angle and height, leaving the boundary sequence untouched.
    pub fn reset(&mut self, angle: Fx, y: Fx)
        ensures
            final(self).o_x == old(self).o_x,
            final(self).o_y == old(self).o_y,
            final(self).o_angle == angle,
            final(self).o_n == old(self).o_n,
            final(self).x == old(self).o_x,
            final(self).y == y,
            final(self).angle == angle,
            final(self).cur_idx == old(self).o_n,
            final(self).boundary == 0,
            final(self).boundaries == old(self).boundaries,
            final(self).status is Propagating,
    {
        self.x = self.o_x;
        self.y = y;
        self.cur_idx = self.o_n;
        self.angle = angle;
        self.o_angle = angle;
        self.boundary = 0;
        self.status = RayStatus::Propagating;
    }

    /// Advance the ray past one boundary.  Returns whether the ray is
    /// still propagating; the full relation between the old and the new
    /// state is [`step_rel`].
    pub fn next_boundary(&mut self) -> (cont: bool)
        ensures
            step_rel(*old(self), *final(self), cont),
    {
        match self.status {
            RayStatus::Terminated(_) => {
                return false;
            },
            RayStatus::Propagating => {},
        }
        if self.boundary >= self.boundaries.len() {
            self.status = RayStatus::Terminated(TermReason::Exhausted);
            return false;
        }
        let idx = self.boundary;
        self.boundary = idx + 1;
        let b = self.boundaries[idx];
        let res = match b {
            BoundaryType::Line { opt_idx, midpoint, height } => step_line(
                self.x,
                self.y,
                self.angle,
                self.cur_idx,
                opt_idx,
                midpoint,
                height,
            ),
            BoundaryType::Spherical { opt_idx, midpoint, radius, height } => step_spherical(
                self.x,
                self.y,
                self.angle,
                self.cur_idx,
                opt_idx,
                midpoint,
                radius,
                height,
            ),
            BoundaryType::Conic { opt_idx, midpoint, radius, conic_param, height } => step_conic(
                self.x,
                self.y,
                self.angle,
                self.cur_idx,
                opt_idx,
                midpoint,
                radius,
                conic_param,
                height,
            ),
        };
        match res {
            StepResult::Hit { x, y, angle, n } => {
                self.x = x;
                self.y = y;
                self.angle = angle;
                self.cur_idx = n;
                true
            },
            StepResult::Stop { reason, x, y } => {
                self.x = x;
                self.y = y;
                self.status = RayStatus::Terminated(reason);
                false
            },
        }
    }
}

} // verus!
