//! Surface materials.

use vstd::prelude::*;
use crate::color::Color;
use crate::fixed::SCALE;

verus! {

/// The appearance of a primitive's surface.  Coefficients are fixed-point
/// scalars; `specular_exponent` is the integer power of the specular
/// highlight.
#[derive(Clone, Copy, Debug, PartialEq, Eq, Structural)]
pub struct Material {
    pub color: Color,
    pub diffuse: i64,
    pub specular: i64,
    pub specular_exponent: u32,
    pub reflectiveness: i64,
    pub opacity: i64,
}

impl Material {
    /// A well-formed material: reflectiveness and opacity are blend weights
    /// in the unit interval, and the other coefficients are non-negative.
    pub open spec fn wf(self) -> bool {
        &&& 0 <= self.reflectiveness <= SCALE
        &&& 0 <= self.opacity <= SCALE
        &&& self.diffuse >= 0
        &&& self.specular >= 0
    }

    /// Decide well-formedness, so a caller can reject a misconfigured
    /// material when the scene is built.
    pub fn check(&self) -> (ok: bool)
        ensures
            ok == self.wf(),
    {
        0 <= self.reflectiveness && self.reflectiveness <= SCALE && 0 <= self.opacity
            && self.opacity <= SCALE && self.diffuse >= 0 && self.specular >= 0
    }
}

} // verus!
