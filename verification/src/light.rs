//! Scene lights.

use vstd::prelude::*;
use crate::color::Color;
use crate::vector::Vec3;

verus! {

/// How a light illuminates the scene: from a point, or uniformly from
/// everywhere.
#[derive(Clone, Copy, Debug, PartialEq, Eq, Structural)]
pub enum LightType {
    Point,
    Ambient,
}

/// A light source.  `position` is ignored for ambient lights.
#[derive(Clone, Copy, Debug, PartialEq, Eq, Structural)]
pub struct Light {
    pub light_type: LightType,
    pub position: Vec3,
    pub intensity: i64,
    pub color: Color,
}

impl Light {
    /// A well-formed light has a non-negative intensity.
    pub open spec fn wf(self) -> bool {
        self.intensity >= 0
    }

    /// Decide well-formedness, so a caller can reject a misconfigured light
    /// when the scene is built.
    pub fn check(&self) -> (ok: bool)
        ensures
            ok == self.wf(),
    {
        self.intensity >= 0
    }
}

} // verus!
