// Per-boundary tracing behaviour: refraction, total internal reflection,
// and the state machine around the boundary cursor.

use raytrace::boundary::BoundaryType;
use raytrace::fx::Fx;
use raytrace::ray::{Ray, RayStatus, RayTemplate, TermReason};
use raytrace::util::deg_to_rad;

const SCALE: f64 = 17592186044416.0;

fn fx(v: f64) -> Fx {
    Fx::from_bits((v * SCALE).round() as i64)
}

fn val(x: Fx) -> f64 {
    x.bits as f64 / SCALE
}

fn line(opt_idx: f64, midpoint: f64, height: f64) -> BoundaryType {
    BoundaryType::Line { opt_idx: fx(opt_idx), midpoint: fx(midpoint), height: fx(height) }
}

fn spherical(opt_idx: f64, midpoint: f64, radius: f64, height: f64) -> BoundaryType {
    BoundaryType::Spherical {
        opt_idx: fx(opt_idx),
        midpoint: fx(midpoint),
        radius: fx(radius),
        height: fx(height),
    }
}

fn conic(opt_idx: f64, midpoint: f64, radius: f64, conic_param: f64, height: f64) -> BoundaryType {
    BoundaryType::Conic {
        opt_idx: fx(opt_idx),
        midpoint: fx(midpoint),
        radius: fx(radius),
        conic_param: fx(conic_param),
        height: fx(height),
    }
}

fn ray_with(boundaries: Vec<BoundaryType>, x: f64, y: f64, angle: f64, n: f64) -> Ray {
    let mut ray = Ray::from_template(RayTemplate {
        x: fx(x),
        y: fx(y),
        angle: fx(angle),
        o_idx: fx(n),
        boundaries,
    });
    let a = ray.o_angle;
    let y0 = ray.o_y;
    ray.reset(a, y0);
    ray
}

#[test]
fn identity_refraction_keeps_angle() {
    // A flat boundary with the same index on both sides leaves the
    // propagation angle unchanged (up to the arc-sine round trip).
    for deg in [-40.0, -20.0, -5.0, 0.0, 10.0, 33.0] {
        let angle = val(deg_to_rad(fx(deg)));
        let mut ray = ray_with(vec![line(1.5, 10.0, 100.0)], 0.0, 0.0, angle, 1.5);
        assert!(ray.next_boundary());
        assert!(
            (val(ray.angle) - angle).abs() <= 1e-9,
            "angle changed: {} vs {}",
            val(ray.angle),
            angle
        );
    }
}

#[test]
fn snell_law_on_line_boundary() {
    // n * sin(phi) == n' * sin(phi') for every successful flat-boundary
    // refraction.
    for deg in [-40.0, -25.0, -10.0, 0.0, 5.0, 15.0, 30.0, 40.0] {
        let angle = val(deg_to_rad(fx(deg)));
        for (n, n2) in [(1.0, 1.5), (1.5, 1.2), (1.3, 1.3), (1.0, 2.4)] {
            let mut ray = ray_with(vec![line(n2, 10.0, 100.0)], 0.0, 0.0, angle, n);
            assert!(ray.next_boundary(), "deg {} n {} n2 {}", deg, n, n2);
            let lhs = n * angle.sin();
            let rhs = n2 * val(ray.angle).sin();
            assert!(
                (lhs - rhs).abs() <= 1e-9,
                "Snell violated at {} deg: {} vs {}",
                deg,
                lhs,
                rhs
            );
        }
    }
}

#[test]
fn critical_angle_decides_total_internal_reflection() {
    let n: f64 = 1.5;
    let n2: f64 = 1.0;
    let critical = (n2 / n).asin();
    // Strictly inside the critical angle: the ray refracts.
    let mut inside = ray_with(vec![line(n2, 10.0, 100.0)], 0.0, 0.0, critical - 1e-3, n);
    assert!(inside.next_boundary());
    assert!(matches!(inside.status, RayStatus::Propagating));
    // Strictly beyond it: total internal reflection.
    let mut beyond = ray_with(vec![line(n2, 10.0, 100.0)], 0.0, 0.0, critical + 1e-3, n);
    assert!(!beyond.next_boundary());
    assert_eq!(
        beyond.status,
        RayStatus::Terminated(TermReason::TotalInternalReflection)
    );
}

#[test]
fn large_radius_spherical_approaches_line() {
    // A spherical boundary of very large radius behaves like the flat
    // boundary at its vertex.
    let radius = 10000.0;
    let angle = 0.05;
    let y0 = 1.0;
    let mut flat = ray_with(vec![line(1.5, 10.0, 5.0)], 0.0, y0, angle, 1.0);
    assert!(flat.next_boundary());
    // Center at 10 + R puts the vertex of the arc at 10.
    let mut curved = ray_with(
        vec![spherical(1.5, 10.0 + radius, radius, 5.0)],
        0.0,
        y0,
        angle,
        1.0,
    );
    assert!(curved.next_boundary());
    assert!((val(flat.y) - val(curved.y)).abs() <= 1e-3);
    assert!((val(flat.angle) - val(curved.angle)).abs() <= 1e-3);
    assert!((val(flat.x) - val(curved.x)).abs() <= 1e-3);
}

#[test]
fn conic_kappa_zero_matches_spherical() {
    // A conic with parameter zero is the circle of the same radius: vertex
    // at 10 means the circle's center sits at 10 + R.
    let radius = 50.0;
    for y0 in [-3.0, -1.5, 0.5, 2.0, 3.0] {
        let mut circle = ray_with(
            vec![spherical(1.5, 10.0 + radius, radius, 10.0)],
            0.0,
            y0,
            0.0,
            1.0,
        );
        assert!(circle.next_boundary(), "spherical missed at y0 {}", y0);
        let mut con = ray_with(
            vec![conic(1.5, 10.0, radius, 0.0, 10.0)],
            0.0,
            y0,
            0.0,
            1.0,
        );
        assert!(con.next_boundary(), "conic missed at y0 {}", y0);
        assert!(
            (val(circle.x) - val(con.x)).abs() <= 1e-6,
            "x differs at y0 {}: {} vs {}",
            y0,
            val(circle.x),
            val(con.x)
        );
        assert!((val(circle.y) - val(con.y)).abs() <= 1e-6);
        assert!((val(circle.angle) - val(con.angle)).abs() <= 1e-6);
    }
}

#[test]
fn on_axis_ray_stays_on_axis() {
    // Through a mixed sequence of all three boundary kinds, a ray launched
    // on the optical axis stays exactly on it.
    let mut ray = ray_with(
        vec![
            line(1.5, 5.0, 4.0),
            spherical(1.2, 60.0, 50.0, 8.0),
            conic(1.0, 20.0, 30.0, -0.5, 6.0),
        ],
        0.0,
        0.0,
        0.0,
        1.0,
    );
    let mut steps = 0;
    while ray.next_boundary() {
        assert_eq!(ray.y.bits, 0, "left the axis at step {}", steps);
        assert_eq!(ray.angle.bits, 0, "picked up an angle at step {}", steps);
        steps += 1;
    }
    assert_eq!(steps, 3);
    assert_eq!(ray.status, RayStatus::Terminated(TermReason::Exhausted));
}

#[test]
fn spherical_concrete_intersection() {
    // Parallel ray at height 2 against a circle centered at 60 with
    // radius 50: the intersection height is exactly the launch height and
    // the axial position is 60 - sqrt(50^2 - 2^2).
    let mut ray = ray_with(vec![spherical(1.5, 60.0, 50.0, 10.0)], 0.0, 2.0, 0.0, 1.0);
    assert!(ray.next_boundary());
    let expect_x = 60.0 - (50.0f64 * 50.0 - 2.0 * 2.0).sqrt();
    assert!((val(ray.x) - expect_x).abs() <= 1e-8, "x: {}", val(ray.x));
    assert!((val(ray.y) - 2.0).abs() <= 1e-8, "y: {}", val(ray.y));
    // Refraction against the radial normal, computed independently.
    let inter = -(2.0f64 / 50.0).asin();
    let alpha = inter - 0.0;
    let expect_angle = inter - (1.0 / 1.5 * alpha.sin()).asin();
    assert!(
        (val(ray.angle) - expect_angle).abs() <= 1e-8,
        "angle: {} vs {}",
        val(ray.angle),
        expect_angle
    );
}

#[test]
fn line_refraction_expected_value() {
    // Air to glass at 30 degrees: the refracted angle is
    // asin(sin(30 deg) / 1.5), computed independently in floating point.
    let angle = val(deg_to_rad(fx(30.0)));
    let mut ray = ray_with(vec![line(1.5, 10.0, 100.0)], 0.0, 0.0, angle, 1.0);
    assert!(ray.next_boundary());
    let expect = (angle.sin() / 1.5).asin();
    assert!(
        (val(ray.angle) - expect).abs() <= 1e-9,
        "refracted {} vs {}",
        val(ray.angle),
        expect
    );
    // The new position sits exactly on the boundary's plane, at the
    // height the ray reaches there.
    assert_eq!(ray.x.bits, fx(10.0).bits);
    assert!((val(ray.y) - 10.0 * angle.tan()).abs() <= 1e-9);
    assert_eq!(ray.cur_idx.bits, fx(1.5).bits);
}

#[test]
fn out_of_aperture_terminates() {
    let mut ray = ray_with(vec![line(1.5, 10.0, 0.5)], 0.0, 1.0, 0.0, 1.0);
    assert!(!ray.next_boundary());
    assert_eq!(ray.status, RayStatus::Terminated(TermReason::OutOfAperture));
    // The failing boundary is still consumed by the cursor.
    assert_eq!(ray.boundary, 1);
    // The propagation state is left as it was.
    assert_eq!(ray.x.bits, 0);
    assert_eq!(ray.y.bits, fx(1.0).bits);
}

#[test]
fn no_intersection_terminates() {
    // A steep ray far off axis misses a small circular arc entirely.
    let mut ray = ray_with(vec![spherical(1.5, 60.0, 2.0, 10.0)], 0.0, 30.0, 0.0, 1.0);
    assert!(!ray.next_boundary());
    assert_eq!(ray.status, RayStatus::Terminated(TermReason::NoIntersection));
}

#[test]
fn tir_leaves_ray_on_boundary_plane() {
    // Total internal reflection happens after the ray has been moved to
    // the plane: the terminated ray sits at the boundary, with its angle
    // and medium index untouched.
    let n: f64 = 1.5;
    let critical = (1.0f64 / n).asin();
    let angle = critical + 1e-3;
    let mut ray = ray_with(vec![line(1.0, 10.0, 100.0)], 0.0, 0.0, angle, n);
    assert!(!ray.next_boundary());
    assert_eq!(ray.status, RayStatus::Terminated(TermReason::TotalInternalReflection));
    assert_eq!(ray.x.bits, fx(10.0).bits);
    assert!((val(ray.y) - 10.0 * angle.tan()).abs() <= 1e-9);
    assert!((val(ray.angle) - angle).abs() <= 1e-12);
    assert_eq!(ray.cur_idx.bits, fx(1.5).bits);
}

#[test]
fn spherical_aperture_miss_keeps_intersection() {
    // The spherical step moves the ray to the arc before testing the
    // aperture, so an aperture miss leaves the ray at the intersection.
    let mut ray = ray_with(vec![spherical(1.5, 60.0, 50.0, 1.0)], 0.0, 2.0, 0.0, 1.0);
    assert!(!ray.next_boundary());
    assert_eq!(ray.status, RayStatus::Terminated(TermReason::OutOfAperture));
    let expect_x = 60.0 - (50.0f64 * 50.0 - 2.0 * 2.0).sqrt();
    assert!((val(ray.x) - expect_x).abs() <= 1e-8);
    assert!((val(ray.y) - 2.0).abs() <= 1e-8);
    assert_eq!(ray.angle.bits, 0);
    assert_eq!(ray.cur_idx.bits, fx(1.0).bits);
}

#[test]
fn conic_without_intersection_terminates() {
    // A parallel ray far above a conic's reach: the quadratic has no real
    // root.
    let mut ray = ray_with(vec![conic(1.5, 10.0, 50.0, 0.0, 10.0)], 0.0, 60.0, 0.0, 1.0);
    assert!(!ray.next_boundary());
    assert_eq!(ray.status, RayStatus::Terminated(TermReason::NoIntersection));
}

#[test]
fn empty_boundary_sequence_exhausts_immediately() {
    let mut ray = ray_with(Vec::new(), 0.0, 1.0, 0.2, 1.0);
    assert!(!ray.next_boundary());
    assert_eq!(ray.status, RayStatus::Terminated(TermReason::Exhausted));
    assert_eq!(ray.boundary, 0);
}

#[test]
fn exhausted_ray_stays_terminated() {
    let mut ray = ray_with(vec![line(1.5, 10.0, 5.0)], 0.0, 0.0, 0.0, 1.0);
    assert!(ray.next_boundary());
    assert!(!ray.next_boundary());
    assert_eq!(ray.status, RayStatus::Terminated(TermReason::Exhausted));
    let x = ray.x.bits;
    let cursor = ray.boundary;
    // Further calls change nothing.
    assert!(!ray.next_boundary());
    assert_eq!(ray.x.bits, x);
    assert_eq!(ray.boundary, cursor);
    assert_eq!(ray.status, RayStatus::Terminated(TermReason::Exhausted));
}

#[test]
fn from_template_starts_with_zero_angle() {
    // The template's angle is kept as the launch angle, but the working
    // angle starts at zero until a reset installs a sample.
    let ray = Ray::from_template(RayTemplate {
        x: fx(1.0),
        y: fx(2.0),
        angle: fx(0.3),
        o_idx: fx(1.5),
        boundaries: vec![line(1.0, 10.0, 5.0)],
    });
    assert_eq!(ray.o_angle.bits, fx(0.3).bits);
    assert_eq!(ray.angle.bits, 0);
    assert_eq!(ray.x.bits, fx(1.0).bits);
    assert_eq!(ray.y.bits, fx(2.0).bits);
    assert_eq!(ray.cur_idx.bits, fx(1.5).bits);
    assert_eq!(ray.boundary, 0);
    assert!(matches!(ray.status, RayStatus::Propagating));
}

#[test]
fn reset_restores_launch_state() {
    let mut ray = ray_with(vec![line(1.5, 10.0, 5.0)], 0.0, 2.0, 0.1, 1.0);
    assert!(ray.next_boundary());
    ray.reset(fx(0.2), fx(-1.0));
    assert_eq!(ray.x.bits, 0);
    assert_eq!(ray.y.bits, fx(-1.0).bits);
    assert_eq!(ray.angle.bits, fx(0.2).bits);
    assert_eq!(ray.cur_idx.bits, fx(1.0).bits);
    assert_eq!(ray.boundary, 0);
    assert!(matches!(ray.status, RayStatus::Propagating));
}
