//! Render configuration.

use vstd::prelude::*;

verus! {

/// Which shading features are enabled, and how deep secondary rays may
/// recurse.  Each toggle disables its corresponding term in shading without
/// altering control flow elsewhere.  Gamma correction is applied outside the
/// library, by whoever quantizes the returned colors.
#[derive(Clone, Copy, Debug, PartialEq, Eq, Structural)]
pub struct Cfg {
    pub max_rays: u8,
    pub diffuse: bool,
    pub specular: bool,
    pub shadows: bool,
    pub reflections: bool,
    pub opacity: bool,
}

} // verus!
