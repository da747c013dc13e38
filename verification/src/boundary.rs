//! The refracting surfaces a ray can meet.

use vstd::prelude::*;

use crate::fx::Fx;

verus! {

/// One refracting boundary along the optical axis.  The set is closed:
/// every surface is a flat plane, a circular arc, or a general conic.
///
/// In each variant `opt_idx` is the refractive index of the medium *after*
/// the boundary and `height` is the half-aperture: the largest distance
/// from the optical axis at which the surface is present.
#[derive(Clone, Copy, PartialEq, Eq, Structural, Debug)]
pub enum BoundaryType {
    /// A flat plane perpendicular to the optical axis at `midpoint`.
    Line { opt_idx: Fx, midpoint: Fx, height: Fx },
    /// A circular arc of signed radius `radius` whose center sits on the
    /// axis at `midpoint`; the sign of the radius encodes the curvature
    /// direction relative to the vertex.
    Spherical { opt_idx: Fx, midpoint: Fx, radius: Fx, height: Fx },
    /// A conic section `y^2 == 2*radius*(x - midpoint) - (1 + conic_param)
    /// * (x - midpoint)^2` with vertex at `midpoint`.  The parameter
    /// classifies the conic: `0` a sphere, `-1` a parabola, below `-1` a
    /// hyperbola, between `-1` and `0` an ellipse.
    Conic { opt_idx: Fx, midpoint: Fx, radius: Fx, conic_param: Fx, height: Fx },
}

} // verus!
