//! A recursive ray-tracing core over fixed-point arithmetic.
//!
//! Every scalar quantity (coordinates, distances, colors, material
//! coefficients) is an `i64` counting units of `1 / fixed::SCALE`.  All
//! geometric tests, the shading recursion and the per-pixel render loop are
//! verified: each executable function is proved equal to a spec-level mirror,
//! and the library's laws (miss propagation, shadow toggling, bounded
//! recursion, winding consistency) are proved from those mirrors.
//!
//! Gamma correction, quantization to 8-bit channels and image or window
//! output are the caller's responsibility; the library hands back linear
//! fixed-point colors.

pub mod camera;
pub mod cfg;
pub mod color;
pub mod fixed;
pub mod light;
pub mod material;
pub mod ray;
pub mod renderer;
pub mod shapes;
pub mod transformations;
pub mod trig;
pub mod vector;
