//! The batch driver: generate launch conditions from a mode, trace each
//! ray to termination, and collect the trajectories; and the static
//! validator run over a boundary sequence before any tracing.

use vstd::prelude::*;

use crate::boundary::BoundaryType;
use crate::fx::{sat, spec_add, spec_div, spec_mul, Fx, FX_ONE};
use crate::ray::{
    spec_step, PathState, Ray, RayStatus, RayTemplate, StepOutcome, TermReason,
};
use crate::util::{deg_to_rad, lerp, rad_to_deg, spec_deg_to_rad, spec_lerp, spec_rad_to_deg};

verus! {

/// How the driver varies the launch conditions: a fan of angles from a
/// common origin, or an array of parallel rays at varying heights.  Either
/// way `n_rays + 1` samples are generated, inclusive of both bounds.
#[derive(Clone, Copy, PartialEq, Eq, Structural, Debug)]
pub enum Mode {
    RayFan { n_rays: usize, min_angle: Fx, max_angle: Fx, in_deg: bool },
    RayArray { n_rays: usize, min_height: Fx, max_height: Fx },
}

/// A full simulation description: the mode and the ray launch template.
pub struct SimTemplate {
    pub mode: Mode,
    pub ray: RayTemplate,
}

/// A simulation run: the mode and the single ray that is reset once per
/// sample.
pub struct RaySim {
    pub mode: Mode,
    pub ray: Ray,
}

/// What a recorded sample refers to: the launch state, or the value of the
/// boundary cursor right after a successful step.
#[derive(Clone, Copy, PartialEq, Eq, Structural, Debug)]
pub enum SampleMarker {
    Launch,
    AtCursor(usize),
}

/// One recorded point of a trajectory; the angle is reported in degrees.
#[derive(Clone, Copy, PartialEq, Eq, Structural, Debug)]
pub struct TraceSample {
    pub marker: SampleMarker,
    pub x: Fx,
    pub y: Fx,
    pub angle_deg: Fx,
}

/// The full record of one sampled ray: its samples, launch first, and the
/// reason it stopped.
#[derive(Debug)]
pub struct Trajectory {
    pub samples: Vec<TraceSample>,
    pub reason: TermReason,
}

/// Specification-level trajectory point produced by [`spec_run`].
pub struct RunSample {
    pub cursor: int,
    pub x: int,
    pub y: int,
    pub angle_deg: int,
}

/// The samples recorded, and the final reason, when a ray in state `st`
/// is stepped from `cursor` through the rest of the boundary sequence:
/// each successful step appends one sample carrying the post-increment
/// cursor, and the first failing boundary (or the end of the sequence)
/// decides the reason.
pub open spec fn spec_run(st: PathState, bs: Seq<BoundaryType>, cursor: int) -> (
    Seq<RunSample>,
    TermReason,
)
    decreases bs.len() - cursor,
{
    if cursor < 0 || cursor >= bs.len() {
        (Seq::<RunSample>::empty(), TermReason::Exhausted)
    } else {
        match spec_step(st, bs[cursor]) {
            StepOutcome::Hit(h) => {
                let rest = spec_run(h, bs, cursor + 1);
                (
                    seq![
                        RunSample {
                            cursor: cursor + 1,
                            x: h.x,
                            y: h.y,
                            angle_deg: spec_rad_to_deg(h.angle),
                        },
                    ] + rest.0,
                    rest.1,
                )
            },
            StepOutcome::Stop { reason, .. } => (Seq::<RunSample>::empty(), reason),
        }
    }
}

/// An executable sample denotes a specification sample.
pub open spec fn sample_matches(s: TraceSample, g: RunSample) -> bool {
    &&& s.marker == SampleMarker::AtCursor(g.cursor as usize)
    &&& s.x.v() == g.x
    &&& s.y.v() == g.y
    &&& s.angle_deg.v() == g.angle_deg
}

/// An executable trajectory is exactly the launch sample followed by the
/// samples and reason of [`spec_run`] from the launch state.
pub open spec fn traj_matches(
    tr: Trajectory,
    x0: int,
    y0: int,
    angle0: int,
    n0: int,
    bs: Seq<BoundaryType>,
) -> bool {
    let run = spec_run(PathState { x: x0, y: y0, angle: angle0, n: n0 }, bs, 0);
    &&& tr.reason == run.1
    &&& tr.samples.len() == 1 + run.0.len()
    &&& tr.samples[0].marker == SampleMarker::Launch
    &&& tr.samples[0].x.v() == x0
    &&& tr.samples[0].y.v() == y0
    &&& tr.samples[0].angle_deg.v() == spec_rad_to_deg(angle0)
    &&& forall|j: int|
        1 <= j < tr.samples.len() ==> sample_matches(#[trigger] tr.samples[j], run.0[j - 1])
}

/// The interpolation parameter of sample `i` of `n + 1`: `i / n` as a
/// saturating fixed-point quotient (zero when `n == 0`).
pub open spec fn spec_t(i: int, n: int) -> int {
    spec_div(sat(i * (FX_ONE as int)), sat(n * (FX_ONE as int)))
}

/// The number of samples a mode generates, minus one.
pub open spec fn spec_n_rays(mode: Mode) -> int {
    match mode {
        Mode::RayFan { n_rays, .. } => n_rays as int,
        Mode::RayArray { n_rays, .. } => n_rays as int,
    }
}

/// The launch angle of sample `i`: interpolated for a fan (after an
/// optional degree conversion of the bounds), the template's angle for an
/// array.
pub open spec fn spec_launch_angle(mode: Mode, o_angle: int, i: int) -> int {
    match mode {
        Mode::RayArray { .. } => o_angle,
        Mode::RayFan { n_rays, min_angle, max_angle, in_deg } => {
            let lo = if in_deg {
                spec_deg_to_rad(min_angle.v())
            } else {
                min_angle.v()
            };
            let hi = if in_deg {
                spec_deg_to_rad(max_angle.v())
            } else {
                max_angle.v()
            };
            spec_lerp(lo, hi, spec_t(i, n_rays as int))
        },
    }
}

/// The launch height of sample `i`: interpolated for an array, the
/// template's height for a fan.
pub open spec fn spec_launch_y(mode: Mode, o_y: int, i: int) -> int {
    match mode {
        Mode::RayArray { n_rays, min_height, max_height } => spec_lerp(
            min_height.v(),
            max_height.v(),
            spec_t(i, n_rays as int),
        ),
        Mode::RayFan { .. } => o_y,
    }
}

/// Reset the ray to the given launch condition and trace it to
/// termination, recording the launch sample and one sample per boundary
/// passed.
fn run_one(ray: &mut Ray, angle: Fx, y: Fx) -> (tr: Trajectory)
    ensures
        final(ray).o_x == old(ray).o_x,
        final(ray).o_y == old(ray).o_y,
        final(ray).o_angle == angle,
        final(ray).o_n == old(ray).o_n,
        final(ray).boundaries == old(ray).boundaries,
        traj_matches(
            tr,
            old(ray).o_x.v(),
            y.v(),
            angle.v(),
            old(ray).o_n.v(),
            old(ray).boundaries@,
        ),
{
    ray.reset(angle, y);
    let ghost start = ray.path_state();
    let ghost bs = ray.boundaries@;
    let ghost total = spec_run(start, bs, 0);
    let mut samples: Vec<TraceSample> = Vec::new();
    samples.push(
        TraceSample {
            marker: SampleMarker::Launch,
            x: ray.x,
            y: ray.y,
            angle_deg: rad_to_deg(ray.angle),
        },
    );
    loop
        invariant
            ray.boundaries == old(ray).boundaries,
            ray.boundaries@ == bs,
            ray.o_x == old(ray).o_x,
            ray.o_y == old(ray).o_y,
            ray.o_angle == angle,
            ray.o_n == old(ray).o_n,
            ray.boundary <= bs.len(),
            samples@.len() >= 1,
            samples@.len() - 1 <= total.0.len(),
            samples@[0].marker == SampleMarker::Launch,
            samples@[0].x.v() == start.x,
            samples@[0].y.v() == start.y,
            samples@[0].angle_deg.v() == spec_rad_to_deg(start.angle),
            forall|j: int|
                1 <= j < samples@.len() ==> sample_matches(
                    #[trigger] samples@[j],
                    total.0[j - 1],
                ),
            match ray.status {
                RayStatus::Propagating => spec_run(ray.path_state(), bs, ray.boundary as int)
                    == (total.0.skip(samples@.len() - 1), total.1),
                RayStatus::Terminated(r) => samples@.len() - 1 == total.0.len() && r == total.1,
            },
        ensures
            ray.status is Terminated,
        decreases bs.len() - ray.boundary,
    {
        let ghost pre = *ray;
        let ghost k = samples@.len() as int;
        let cont = ray.next_boundary();
        if !cont {
            proof {
                if pre.status is Propagating {
                    let c = pre.boundary as int;
                    assert(spec_run(pre.path_state(), bs, c) == (
                        total.0.skip(k - 1),
                        total.1,
                    ));
                    if c < bs.len() {
                        match spec_step(pre.path_state(), bs[c]) {
                            StepOutcome::Hit(h) => {
                                assert(false);
                            },
                            StepOutcome::Stop { reason: r2, .. } => {
                                assert(spec_run(pre.path_state(), bs, c) == (
                                    Seq::<RunSample>::empty(),
                                    r2,
                                ));
                            },
                        }
                    } else {
                        assert(spec_run(pre.path_state(), bs, c) == (
                            Seq::<RunSample>::empty(),
                            TermReason::Exhausted,
                        ));
                    }
                    assert(total.0.skip(k - 1).len() == 0);
                    assert(total.0.len() == k - 1);
                }
            }
            break;
        }
        samples.push(
            TraceSample {
                marker: SampleMarker::AtCursor(ray.boundary),
                x: ray.x,
                y: ray.y,
                angle_deg: rad_to_deg(ray.angle),
            },
        );
        proof {
            let c = pre.boundary as int;
            let run_pre = spec_run(pre.path_state(), bs, c);
            let h = spec_step(pre.path_state(), bs[c])->Hit_0;
            let g = RunSample {
                cursor: c + 1,
                x: h.x,
                y: h.y,
                angle_deg: spec_rad_to_deg(h.angle),
            };
            let run_next = spec_run(h, bs, c + 1);
            assert(run_pre.0 == seq![g] + run_next.0);
            assert(total.0.skip(k - 1) == seq![g] + run_next.0);
            assert(total.0.skip(k - 1)[0] == g);
            assert(total.0[k - 1] == g);
            assert(total.0.skip(k - 1) =~= seq![total.0[k - 1]] + total.0.skip(k));
            assert(run_next.0 =~= total.0.skip(k)) by {
                assert forall|i: int| 0 <= i < run_next.0.len() implies run_next.0[i]
                    == total.0.skip(k)[i] by {
                    assert(run_next.0[i] == (seq![g] + run_next.0)[i + 1]);
                    assert((seq![total.0[k - 1]] + total.0.skip(k))[i + 1] == total.0.skip(k)[i]);
                }
            }
        }
    }
    let reason = match ray.status {
        RayStatus::Terminated(r) => r,
        RayStatus::Propagating => {
            proof {
                assert(false);
            }
            TermReason::Exhausted
        },
    };
    Trajectory { samples, reason }
}

impl RaySim {
    /// Build a simulation run from its template: the mode is kept and the
    /// ray is exactly what [`Ray::from_template`] constructs.
    pub fn from_template(template: SimTemplate) -> (s: RaySim)
        ensures
            s.mode == template.mode,
            s.ray.o_x == template.ray.x,
            s.ray.o_y == template.ray.y,
            s.ray.o_angle == template.ray.angle,
            s.ray.o_n == template.ray.o_idx,
            s.ray.x == template.ray.x,
            s.ray.y == template.ray.y,
            s.ray.angle.v() == 0,
            s.ray.cur_idx == template.ray.o_idx,
            s.ray.boundary == 0,
            s.ray.boundaries == template.ray.boundaries,
            s.ray.status is Propagating,
    {
        RaySim { mode: template.mode, ray: Ray::from_template(template.ray) }
    }

    /// Generate `n_rays + 1` launch conditions by linear interpolation,
    /// trace each to termination, and return the trajectories in order.
    pub fn sim(&mut self) -> (result: Vec<Trajectory>)
        requires
            spec_n_rays(old(self).mode) + 1 <= usize::MAX,
        ensures
            final(self).mode == old(self).mode,
            final(self).ray.o_x == old(self).ray.o_x,
            final(self).ray.o_y == old(self).ray.o_y,
            final(self).ray.o_n == old(self).ray.o_n,
            final(self).ray.boundaries == old(self).ray.boundaries,
            result.len() == spec_n_rays(old(self).mode) + 1,
            forall|i: int|
                0 <= i < result.len() ==> traj_matches(
                    #[trigger] result[i],
                    old(self).ray.o_x.v(),
                    spec_launch_y(old(self).mode, old(self).ray.o_y.v(), i),
                    spec_launch_angle(old(self).mode, old(self).ray.o_angle.v(), i),
                    old(self).ray.o_n.v(),
                    old(self).ray.boundaries@,
                ),
    {
        let mut result: Vec<Trajectory> = Vec::new();
        match self.mode {
            Mode::RayArray { n_rays, min_height, max_height } => {
                let mut idx: usize = 0;
                while idx < n_rays + 1
                    invariant
                        n_rays + 1 <= usize::MAX,
                        idx <= n_rays + 1,
                        self.mode == old(self).mode,
                        self.mode == (Mode::RayArray { n_rays, min_height, max_height }),
                        self.ray.o_x == old(self).ray.o_x,
                        self.ray.o_y == old(self).ray.o_y,
                        self.ray.o_angle == old(self).ray.o_angle,
                        self.ray.o_n == old(self).ray.o_n,
                        self.ray.boundaries == old(self).ray.boundaries,
                        result.len() == idx,
                        forall|i: int|
                            0 <= i < result.len() ==> traj_matches(
                                #[trigger] result[i],
                                old(self).ray.o_x.v(),
                                spec_launch_y(old(self).mode, old(self).ray.o_y.v(), i),
                                spec_launch_angle(old(self).mode, old(self).ray.o_angle.v(), i),
                                old(self).ray.o_n.v(),
                                old(self).ray.boundaries@,
                            ),
                    decreases n_rays + 1 - idx,
                {
                    let t = Fx::from_usize(idx).sat_div(Fx::from_usize(n_rays));
                    let cur_height = lerp(min_height, max_height, t);
                    let a = self.ray.o_angle;
                    let tr = run_one(&mut self.ray, a, cur_height);
                    result.push(tr);
                    idx = idx + 1;
                }
            },
            Mode::RayFan { n_rays, min_angle, max_angle, in_deg } => {
                let lo = if in_deg {
                    deg_to_rad(min_angle)
                } else {
                    min_angle
                };
                let hi = if in_deg {
                    deg_to_rad(max_angle)
                } else {
                    max_angle
                };
                let mut idx: usize = 0;
                while idx < n_rays + 1
                    invariant
                        n_rays + 1 <= usize::MAX,
                        idx <= n_rays + 1,
                        self.mode == old(self).mode,
                        self.mode == (Mode::RayFan { n_rays, min_angle, max_angle, in_deg }),
                        lo.v() == spec_launch_lo(old(self).mode),
                        hi.v() == spec_launch_hi(old(self).mode),
                        self.ray.o_x == old(self).ray.o_x,
                        self.ray.o_y == old(self).ray.o_y,
                        self.ray.o_n == old(self).ray.o_n,
                        self.ray.boundaries == old(self).ray.boundaries,
                        result.len() == idx,
                        forall|i: int|
                            0 <= i < result.len() ==> traj_matches(
                                #[trigger] result[i],
                                old(self).ray.o_x.v(),
                                spec_launch_y(old(self).mode, old(self).ray.o_y.v(), i),
                                spec_launch_angle(old(self).mode, old(self).ray.o_angle.v(), i),
                                old(self).ray.o_n.v(),
                                old(self).ray.boundaries@,
                            ),
                    decreases n_rays + 1 - idx,
                {
                    let t = Fx::from_usize(idx).sat_div(Fx::from_usize(n_rays));
                    let cur_angle = lerp(lo, hi, t);
                    let y0 = self.ray.o_y;
                    let tr = run_one(&mut self.ray, cur_angle, y0);
                    result.push(tr);
                    idx = idx + 1;
                }
            },
        }
        result
    }
}

/// The lower interpolation bound of a fan's launch angle, after the
/// optional degree conversion.
pub open spec fn spec_launch_lo(mode: Mode) -> int {
    match mode {
        Mode::RayFan { min_angle, in_deg, .. } => if in_deg {
            spec_deg_to_rad(min_angle.v())
        } else {
            min_angle.v()
        },
        Mode::RayArray { .. } => 0,
    }
}

/// The upper interpolation bound of a fan's launch angle, after the
/// optional degree conversion.
pub open spec fn spec_launch_hi(mode: Mode) -> int {
    match mode {
        Mode::RayFan { max_angle, in_deg, .. } => if in_deg {
            spec_deg_to_rad(max_angle.v())
        } else {
            max_angle.v()
        },
        Mode::RayArray { .. } => 0,
    }
}

/// What, if anything, is wrong with one boundary's parameters.
#[derive(Clone, Copy, PartialEq, Eq, Structural, Debug)]
pub enum ValidationFault {
    /// A spherical or conic boundary with radius zero.
    ZeroRadius,
    /// A negative refractive index after the boundary.
    NegativeIndex,
    /// A negative half-aperture height.
    NegativeHeight,
    /// A conic aperture taller than the surface itself reaches:
    /// `height^2 > radius^2 / (1 + conic_param)` while `conic_param > -1`.
    ApertureTooLarge,
}

/// A validation failure: the offending boundary's index and the fault.
#[derive(Clone, Copy, PartialEq, Eq, Structural, Debug)]
pub struct ValidationError {
    pub index: usize,
    pub fault: ValidationFault,
}

/// The first fault of a single boundary, if any: a zero radius where a
/// radius exists, a negative refractive index, a negative half-aperture,
/// and for a conic an aperture taller than the surface reaches.
pub open spec fn spec_boundary_fault(b: BoundaryType) -> Option<ValidationFault> {
    match b {
        BoundaryType::Line { opt_idx, height, .. } => if opt_idx.v() < 0 {
            Some(ValidationFault::NegativeIndex)
        } else if height.v() < 0 {
            Some(ValidationFault::NegativeHeight)
        } else {
            None
        },
        BoundaryType::Spherical { opt_idx, radius, height, .. } => if radius.v() == 0 {
            Some(ValidationFault::ZeroRadius)
        } else if opt_idx.v() < 0 {
            Some(ValidationFault::NegativeIndex)
        } else if height.v() < 0 {
            Some(ValidationFault::NegativeHeight)
        } else {
            None
        },
        BoundaryType::Conic { opt_idx, radius, conic_param, height, .. } => if radius.v() == 0 {
            Some(ValidationFault::ZeroRadius)
        } else if opt_idx.v() < 0 {
            Some(ValidationFault::NegativeIndex)
        } else if height.v() < 0 {
            Some(ValidationFault::NegativeHeight)
        } else if conic_param.v() > -(FX_ONE as int) && spec_mul(height.v(), height.v())
            > spec_div(
            spec_mul(radius.v(), radius.v()),
            spec_add(FX_ONE as int, conic_param.v()),
        ) {
            Some(ValidationFault::ApertureTooLarge)
        } else {
            None
        },
    }
}

/// The first fault of one boundary, executably.
fn boundary_fault(b: &BoundaryType) -> (f: Option<ValidationFault>)
    ensures
        f == spec_boundary_fault(*b),
{
    match *b {
        BoundaryType::Line { opt_idx, height, .. } => {
            if opt_idx.lt(Fx::zero()) {
                Some(ValidationFault::NegativeIndex)
            } else if height.lt(Fx::zero()) {
                Some(ValidationFault::NegativeHeight)
            } else {
                None
            }
        },
        BoundaryType::Spherical { opt_idx, radius, height, .. } => {
            if radius.is_zero() {
                Some(ValidationFault::ZeroRadius)
            } else if opt_idx.lt(Fx::zero()) {
                Some(ValidationFault::NegativeIndex)
            } else if height.lt(Fx::zero()) {
                Some(ValidationFault::NegativeHeight)
            } else {
                None
            }
        },
        BoundaryType::Conic { opt_idx, radius, conic_param, height, .. } => {
            if radius.is_zero() {
                Some(ValidationFault::ZeroRadius)
            } else if opt_idx.lt(Fx::zero()) {
                Some(ValidationFault::NegativeIndex)
            } else if height.lt(Fx::zero()) {
                Some(ValidationFault::NegativeHeight)
            } else {
                let limit = radius.sat_mul(radius).sat_div(Fx::one().sat_add(conic_param));
                if conic_param.gt(Fx::one().sat_neg()) && height.sat_mul(height).gt(limit) {
                    Some(ValidationFault::ApertureTooLarge)
                } else {
                    None
                }
            }
        },
    }
}

/// Check a whole boundary sequence before tracing: `Ok` exactly when every
/// boundary is fault free, otherwise the first offending boundary's index
/// and fault.
pub fn validate_boundaries(boundaries: &Vec<BoundaryType>) -> (r: Result<(), ValidationError>)
    ensures
        (r is Ok) <==> (forall|i: int|
            0 <= i < boundaries@.len() ==> (#[trigger] spec_boundary_fault(boundaries@[i]))
                is None),
        r matches Err(e) ==> {
            &&& 0 <= (e.index as int) < boundaries@.len()
            &&& spec_boundary_fault(boundaries@[e.index as int]) == Some(e.fault)
            &&& forall|i: int|
                0 <= i < e.index ==> (#[trigger] spec_boundary_fault(boundaries@[i])) is None
        },
{
    let mut idx: usize = 0;
    while idx < boundaries.len()
        invariant
            idx <= boundaries@.len(),
            forall|i: int|
                0 <= i < idx ==> (#[trigger] spec_boundary_fault(boundaries@[i])) is None,
        decreases boundaries@.len() - idx,
    {
        match boundary_fault(&boundaries[idx]) {
            Some(fault) => {
                return Err(ValidationError { index: idx, fault });
            },
            None => {},
        }
        idx = idx + 1;
    }
    Ok(())
}

} // verus!
