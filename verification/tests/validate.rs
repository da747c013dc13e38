// The static validator over boundary sequences, and the interpolation
// helper.

use raytrace::boundary::BoundaryType;
use raytrace::fx::Fx;
use raytrace::sim::{validate_boundaries, ValidationFault};
use raytrace::util::lerp;

const SCALE: f64 = 17592186044416.0;

fn fx(v: f64) -> Fx {
    Fx::from_bits((v * SCALE).round() as i64)
}

fn val(x: Fx) -> f64 {
    x.bits as f64 / SCALE
}

fn good_line() -> BoundaryType {
    BoundaryType::Line { opt_idx: fx(1.5), midpoint: fx(10.0), height: fx(5.0) }
}

fn good_spherical() -> BoundaryType {
    BoundaryType::Spherical {
        opt_idx: fx(1.5),
        midpoint: fx(60.0),
        radius: fx(50.0),
        height: fx(5.0),
    }
}

fn good_conic() -> BoundaryType {
    BoundaryType::Conic {
        opt_idx: fx(1.5),
        midpoint: fx(10.0),
        radius: fx(50.0),
        conic_param: fx(0.0),
        height: fx(5.0),
    }
}

#[test]
fn valid_sequence_passes() {
    let bs = vec![good_line(), good_spherical(), good_conic()];
    assert!(validate_boundaries(&bs).is_ok());
}

#[test]
fn zero_radius_spherical_rejected() {
    let bad = BoundaryType::Spherical {
        opt_idx: fx(1.5),
        midpoint: fx(60.0),
        radius: fx(0.0),
        height: fx(5.0),
    };
    let bs = vec![good_line(), bad];
    let err = validate_boundaries(&bs).unwrap_err();
    assert_eq!(err.index, 1);
    assert_eq!(err.fault, ValidationFault::ZeroRadius);
}

#[test]
fn zero_radius_conic_rejected() {
    let bad = BoundaryType::Conic {
        opt_idx: fx(1.5),
        midpoint: fx(10.0),
        radius: fx(0.0),
        conic_param: fx(0.0),
        height: fx(5.0),
    };
    let bs = vec![bad];
    let err = validate_boundaries(&bs).unwrap_err();
    assert_eq!(err.index, 0);
    assert_eq!(err.fault, ValidationFault::ZeroRadius);
}

#[test]
fn negative_index_rejected() {
    let bad = BoundaryType::Line { opt_idx: fx(-1.0), midpoint: fx(10.0), height: fx(5.0) };
    let bs = vec![good_spherical(), bad];
    let err = validate_boundaries(&bs).unwrap_err();
    assert_eq!(err.index, 1);
    assert_eq!(err.fault, ValidationFault::NegativeIndex);
}

#[test]
fn negative_height_rejected() {
    let bad_line = BoundaryType::Line { opt_idx: fx(1.5), midpoint: fx(10.0), height: fx(-1.0) };
    let err = validate_boundaries(&vec![bad_line]).unwrap_err();
    assert_eq!(err.index, 0);
    assert_eq!(err.fault, ValidationFault::NegativeHeight);

    let bad_sphere = BoundaryType::Spherical {
        opt_idx: fx(1.5),
        midpoint: fx(60.0),
        radius: fx(50.0),
        height: fx(-0.5),
    };
    let err = validate_boundaries(&vec![good_line(), bad_sphere]).unwrap_err();
    assert_eq!(err.index, 1);
    assert_eq!(err.fault, ValidationFault::NegativeHeight);

    let bad_conic = BoundaryType::Conic {
        opt_idx: fx(1.5),
        midpoint: fx(10.0),
        radius: fx(50.0),
        conic_param: fx(0.0),
        height: fx(-2.0),
    };
    let err = validate_boundaries(&vec![bad_conic]).unwrap_err();
    assert_eq!(err.index, 0);
    assert_eq!(err.fault, ValidationFault::NegativeHeight);
}

#[test]
fn conic_aperture_beyond_surface_rejected() {
    // With kappa = 0 the surface reaches height R at most; an aperture of
    // 60 on a radius of 50 is geometrically impossible.
    let bad = BoundaryType::Conic {
        opt_idx: fx(1.5),
        midpoint: fx(10.0),
        radius: fx(50.0),
        conic_param: fx(0.0),
        height: fx(60.0),
    };
    let bs = vec![bad];
    let err = validate_boundaries(&bs).unwrap_err();
    assert_eq!(err.index, 0);
    assert_eq!(err.fault, ValidationFault::ApertureTooLarge);
}

#[test]
fn parabola_aperture_unconstrained() {
    // At kappa <= -1 the aperture bound does not apply.
    let parabola = BoundaryType::Conic {
        opt_idx: fx(1.5),
        midpoint: fx(10.0),
        radius: fx(50.0),
        conic_param: fx(-1.0),
        height: fx(500.0),
    };
    assert!(validate_boundaries(&vec![parabola]).is_ok());
}

#[test]
fn first_offending_boundary_is_blamed() {
    let bad0 = BoundaryType::Spherical {
        opt_idx: fx(1.5),
        midpoint: fx(60.0),
        radius: fx(0.0),
        height: fx(5.0),
    };
    let bad1 = BoundaryType::Line { opt_idx: fx(-2.0), midpoint: fx(10.0), height: fx(5.0) };
    let err = validate_boundaries(&vec![good_line(), bad0, bad1]).unwrap_err();
    assert_eq!(err.index, 1);
    assert_eq!(err.fault, ValidationFault::ZeroRadius);
}

#[test]
fn empty_sequence_is_valid() {
    assert!(validate_boundaries(&Vec::new()).is_ok());
}

#[test]
fn lerp_hits_bounds_and_midpoint() {
    assert_eq!(lerp(fx(-5.0), fx(5.0), fx(0.0)).bits, fx(-5.0).bits);
    assert_eq!(lerp(fx(-5.0), fx(5.0), fx(1.0)).bits, fx(5.0).bits);
    assert_eq!(lerp(fx(-5.0), fx(5.0), fx(0.5)).bits, 0);
    assert!((val(lerp(fx(2.0), fx(4.0), fx(0.25))) - 2.5).abs() <= 1e-12);
}
