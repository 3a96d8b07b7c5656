//! The per-pixel render loop.
//!
//! `render` walks every pixel, asks the camera for the primary ray and
//! casts it; the result is the scene's background color wherever the cast
//! reports no hit.  Pixels are independent and the scene is read-only, so a
//! caller may just as well split the pixel range across workers; the output
//! is pinned per pixel by `render_pixel_s` either way, which is what makes
//! rendering deterministic.

use vstd::prelude::*;
use crate::camera::{get_ray_s, Camera};
use crate::cfg::Cfg;
use crate::color::Color;
use crate::fixed::{fdiv_int, tdiv_s, SCALE};
use crate::light::Light;
use crate::ray::{cast_ray_s, Ray};
use crate::shapes::Shape;

verus! {

/// A scene with an output size: everything one call to `render` reads.
/// Immutable for the duration of a render.
#[derive(Debug)]
pub struct Renderer {
    pub width: u32,
    pub height: u32,
    pub camera: Camera,
    pub objects: Vec<Shape>,
    pub lights: Vec<Light>,
    pub bg_color: Color,
    pub options: Cfg,
}

/// The color of the pixel at `(x, y)`: the cast of the camera ray through
/// the pixel's normalized coordinates, with the background substituted for
/// a miss.
pub open spec fn render_pixel_s(r: Renderer, x: int, y: int) -> Color {
    let u = tdiv_s(x * SCALE, r.width as int);
    let v = tdiv_s(y * SCALE, r.height as int);
    let ray = get_ray_s(r.camera, u, v);
    match cast_ray_s(ray, r.objects@, r.lights@, r.options, r.bg_color, 0) {
        None => r.bg_color,
        Some(c) => c,
    }
}

impl Renderer {
    /// A well-formed scene: a non-empty output whose pixel count fits the
    /// machine, and no degenerate primitive or light.  A misconfigured
    /// scene is meant to be rejected when it is built, not mid-render.
    pub open spec fn wf(self) -> bool {
        &&& self.width > 0
        &&& self.height > 0
        &&& self.width as int * self.height as int <= usize::MAX as int
        &&& forall|i: int| 0 <= i < self.objects@.len() ==> (#[trigger] self.objects@[i]).wf()
        &&& forall|i: int| 0 <= i < self.lights@.len() ==> (#[trigger] self.lights@[i]).wf()
    }

    /// Decide well-formedness, so the scene builder can reject a
    /// misconfigured scene up front.
    pub fn validate(&self) -> (ok: bool)
        ensures
            ok == self.wf(),
    {
        if self.width == 0 || self.height == 0 {
            return false;
        }
        proof {
            assert((self.width as int) * (self.height as int) <= 0xffffffffint * 0xffffffffint)
                by (nonlinear_arith)
                requires
                    self.width <= 0xffffffffu32,
                    self.height <= 0xffffffffu32,
            ;
        }
        if !((self.width as u64) * (self.height as u64) <= usize::MAX as u64) {
            return false;
        }
        let mut i: usize = 0;
        let n: usize = self.objects.len();
        while i < n
            invariant
                i <= n,
                n == self.objects@.len(),
                forall|j: int| 0 <= j < i ==> (#[trigger] self.objects@[j]).wf(),
            decreases n - i,
        {
            if !self.objects[i].check() {
                return false;
            }
            i = i + 1;
        }
        let mut k: usize = 0;
        let m: usize = self.lights.len();
        while k < m
            invariant
                k <= m,
                m == self.lights@.len(),
                forall|j: int| 0 <= j < k ==> (#[trigger] self.lights@[j]).wf(),
            decreases m - k,
        {
            if !self.lights[k].check() {
                return false;
            }
            k = k + 1;
        }
        true
    }

    /// The color of one pixel.
    pub fn render_pixel(&self, x: u32, y: u32) -> (c: Color)
        requires
            self.width > 0,
            self.height > 0,
        ensures
            c == render_pixel_s(*self, x as int, y as int),
    {
        let u: i64 = fdiv_int((x as i64) * SCALE, self.width as i64);
        let v: i64 = fdiv_int((y as i64) * SCALE, self.height as i64);
        let ray: Ray = self.camera.get_ray(u, v);
        match Ray::cast_ray(ray, &self.objects, &self.lights, &self.options, self.bg_color, 0) {
            None => self.bg_color,
            Some(c) => c,
        }
    }

    /// Render the whole frame, row-major: pixel `p` is column `p % width`
    /// of row `p / width`.
    pub fn render(&self) -> (buf: Vec<Color>)
        requires
            self.width > 0,
            self.height > 0,
            self.width as int * self.height as int <= usize::MAX as int,
        ensures
            buf@.len() == self.width as int * self.height as int,
            forall|p: int|
                0 <= p < buf@.len() ==> #[trigger] buf@[p] == render_pixel_s(
                    *self,
                    p % (self.width as int),
                    p / (self.width as int),
                ),
    {
        let total: usize = (self.width as usize) * (self.height as usize);
        let mut buf: Vec<Color> = Vec::new();
        let mut p: usize = 0;
        while p < total
            invariant
                p <= total,
                total == self.width as int * self.height as int,
                self.width > 0,
                self.height > 0,
                buf@.len() == p,
                forall|q: int|
                    0 <= q < p ==> #[trigger] buf@[q] == render_pixel_s(
                        *self,
                        q % (self.width as int),
                        q / (self.width as int),
                    ),
            decreases total - p,
        {
            let x: u32 = (p % (self.width as usize)) as u32;
            let y: u32 = (p / (self.width as usize)) as u32;
            proof {
                assert(p as int % (self.width as int) == (p % (self.width as usize)) as int);
                assert(p as int / (self.width as int) == (p / (self.width as usize)) as int);
                vstd::arithmetic::div_mod::lemma_div_is_ordered(
                    p as int,
                    total as int,
                    self.width as int,
                );
                assert(total as int / (self.width as int) == self.height as int) by {
                    vstd::arithmetic::div_mod::lemma_div_multiples_vanish(
                        self.height as int,
                        self.width as int,
                    );
                }
            }
            let c: Color = self.render_pixel(x, y);
            buf.push(c);
            p = p + 1;
        }
        buf
    }
}

/// Rendering is deterministic: two scenes equal in every field a render
/// reads produce the same color at every pixel, so rendering the same
/// immutable scene twice gives identical output.  There is no hidden state.
pub proof fn lemma_render_deterministic(a: Renderer, b: Renderer)
    requires
        a.width == b.width,
        a.height == b.height,
        a.camera == b.camera,
        a.objects@ == b.objects@,
        a.lights@ == b.lights@,
        a.bg_color == b.bg_color,
        a.options == b.options,
    ensures
        forall|x: int, y: int| render_pixel_s(a, x, y) == render_pixel_s(b, x, y),
{
}

} // verus!
