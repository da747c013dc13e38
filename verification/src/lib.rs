//! Meridional ray tracing through rotationally symmetric optical surfaces.
//!
//! A ray is propagated through an ordered sequence of refracting boundaries
//! (flat planes, circular arcs, general conics) along an optical axis.  At
//! each boundary the intersection point is computed in closed form, Snell's
//! law is applied, and the ray either continues or terminates (aperture miss,
//! no intersection, total internal reflection, or end of the sequence).
//!
//! All scalar quantities are Q19.44 fixed-point numbers (see [`fx`]); the
//! transcendental functions come from the `cordic` crate behind trusted
//! wrappers (see [`trig`]).

pub mod boundary;
pub mod fx;
pub mod laws;
pub mod ray;
pub mod sim;
pub mod trig;
pub mod util;
