//! Rays, and the recursive shading engine that casts them.
//!
//! `Ray::cast_ray` finds the nearest hit by a linear scan, evaluates a
//! Phong-style local illumination sum with shadow testing, and recursively
//! blends in reflection and transmission rays, strictly bounded by the
//! configured depth.  The engine is proved equal to the spec-level mirror
//! `cast_ray_s`, and the laws about it (a ray that hits nothing yields
//! nothing; disabled shadows ignore occluders; shadowed lights contribute
//! nothing; zero reflectiveness never recurses into reflection; at the
//! depth bound nothing recurses) are proved below from that mirror.

use vstd::prelude::*;
use crate::cfg::Cfg;
use crate::color::{black_s, cadd_s, cblend_s, cmul_s, cscale_s, Color};
use crate::fixed::{fmax, fmax_s, fmul, fmul_s, fpow, fpow_s, fsub, fsub_s, SCALE};
use crate::light::{Light, LightType};
use crate::material::Material;
use crate::shapes::{shape_intersect_s, shape_material_s, shape_normal_s, Shape};
use crate::vector::{correct_s, dot_s, normalize_s, reflect_s, vadd_s, vneg_s, vscale_s, vsub_s,
    Vec3};

verus! {

/// A half-line: an origin and a direction.  The direction need not have
/// unit length; distances reported by the intersection tests are parametric
/// in it.
#[derive(Clone, Copy, Debug, PartialEq, Eq, Structural)]
pub struct Ray {
    pub origin: Vec3,
    pub direction: Vec3,
}

/// `s` blocks the path of `shadow_ray` before it reaches a light at
/// parametric distance `light_dist`.
pub open spec fn hit_within_s(s: Shape, shadow_ray: Ray, light_dist: int) -> bool {
    shape_intersect_s(s, shadow_ray) matches Some(d) && d < light_dist
}

/// Some shape blocks the path from the shadow ray's origin to the light.
pub open spec fn occluded_s(objects: Seq<Shape>, shadow_ray: Ray, light_dist: int) -> bool {
    exists|i: int| 0 <= i < objects.len() && #[trigger] hit_within_s(objects[i], shadow_ray, light_dist)
}

/// The nearest hit among the first `n` shapes: the index and distance of
/// the shape with the smallest positive intersection distance, the earliest
/// index winning ties.
pub open spec fn nearest_hit_upto_s(objects: Seq<Shape>, ray: Ray, n: int) -> Option<(int, i64)>
    decreases n,
{
    if n <= 0 {
        None
    } else {
        let prev = nearest_hit_upto_s(objects, ray, n - 1);
        match shape_intersect_s(objects[n - 1], ray) {
            None => prev,
            Some(d) => match prev {
                None => Some((n - 1, d)),
                Some((pi, pd)) => if d < pd {
                    Some((n - 1, d))
                } else {
                    prev
                },
            },
        }
    }
}

/// The nearest hit among all shapes of the scene.
pub open spec fn nearest_hit_s(objects: Seq<Shape>, ray: Ray) -> Option<(int, i64)> {
    nearest_hit_upto_s(objects, ray, objects.len() as int)
}

/// The direction from a point toward a light, normalized.
pub open spec fn light_dir_s(light: Light, point: Vec3) -> Vec3 {
    normalize_s(vsub_s(light.position, point))
}

/// The shadow ray for a light: it starts a small nudge off the surface
/// along the normal, to avoid re-hitting the surface it starts on.
pub open spec fn shadow_ray_s(light: Light, point: Vec3, normal: Vec3) -> Ray {
    Ray { origin: correct_s(point, normal), direction: light_dir_s(light, point) }
}

/// The parametric distance from a point to a light along the shadow ray.
pub open spec fn light_dist_s(light: Light, point: Vec3) -> int {
    crate::vector::length_s(vsub_s(light.position, point))
}

/// The diffuse and specular terms of one unoccluded point light, each under
/// its own toggle.  `view` is the incoming ray direction.
pub open spec fn point_light_terms_s(
    light: Light,
    ldir: Vec3,
    normal: Vec3,
    view: Vec3,
    mat: Material,
    cfg: Cfg,
) -> Color {
    let diffuse_term = if cfg.diffuse {
        cscale_s(
            cmul_s(mat.color, light.color),
            fmul_s(
                fmul_s(fmax_s(0, dot_s(normal, ldir)), mat.diffuse as int),
                light.intensity as int,
            ),
        )
    } else {
        black_s()
    };
    let specular_term = if cfg.specular {
        cscale_s(
            light.color,
            fmul_s(
                fmul_s(
                    fpow_s(
                        fmax_s(0, dot_s(reflect_s(ldir, normal), vneg_s(view))),
                        mat.specular_exponent as nat,
                    ),
                    mat.specular as int,
                ),
                light.intensity as int,
            ),
        )
    } else {
        black_s()
    };
    cadd_s(diffuse_term, specular_term)
}

/// The contribution of one light at a hit point.  Ambient lights contribute
/// unconditionally; a point light contributes its local terms unless
/// shadows are enabled and some shape occludes it.
pub open spec fn light_term_s(
    objects: Seq<Shape>,
    light: Light,
    point: Vec3,
    normal: Vec3,
    view: Vec3,
    mat: Material,
    cfg: Cfg,
) -> Color {
    match light.light_type {
        LightType::Ambient => cscale_s(cmul_s(light.color, mat.color), light.intensity as int),
        LightType::Point => {
            if cfg.shadows && occluded_s(
                objects,
                shadow_ray_s(light, point, normal),
                light_dist_s(light, point),
            ) {
                black_s()
            } else {
                point_light_terms_s(light, light_dir_s(light, point), normal, view, mat, cfg)
            }
        },
    }
}

/// The sum of the contributions of the first `n` lights.
pub open spec fn shade_upto_s(
    objects: Seq<Shape>,
    lights: Seq<Light>,
    n: int,
    point: Vec3,
    normal: Vec3,
    view: Vec3,
    mat: Material,
    cfg: Cfg,
) -> Color
    decreases n,
{
    if n <= 0 {
        black_s()
    } else {
        cadd_s(
            shade_upto_s(objects, lights, n - 1, point, normal, view, mat, cfg),
            light_term_s(objects, lights[n - 1], point, normal, view, mat, cfg),
        )
    }
}

/// The local illumination at a hit point: all lights summed.
pub open spec fn shade_s(
    objects: Seq<Shape>,
    lights: Seq<Light>,
    point: Vec3,
    normal: Vec3,
    view: Vec3,
    mat: Material,
    cfg: Cfg,
) -> Color {
    shade_upto_s(objects, lights, lights.len() as int, point, normal, view, mat, cfg)
}

/// The point a ray reaches after a parametric distance.
pub open spec fn hit_point_s(ray: Ray, d: int) -> Vec3 {
    vadd_s(ray.origin, vscale_s(ray.direction, d))
}

/// The local illumination for the hit of `ray` on shape `i` at distance
/// `d`.
pub open spec fn local_color_s(
    ray: Ray,
    objects: Seq<Shape>,
    lights: Seq<Light>,
    cfg: Cfg,
    i: int,
    d: i64,
) -> Color {
    let point = hit_point_s(ray, d as int);
    let mat = shape_material_s(objects[i]);
    let nrm = shape_normal_s(objects[i], point);
    shade_s(objects, lights, point, nrm, ray.direction, mat, cfg)
}

/// The reflection ray at a hit: nudged off the surface along the normal,
/// directed along the mirror of the incoming direction.
pub open spec fn reflection_ray_s(ray: Ray, point: Vec3, normal: Vec3) -> Ray {
    Ray { origin: correct_s(point, normal), direction: reflect_s(ray.direction, normal) }
}

/// The transmission ray at a hit: it continues along the same direction,
/// nudged through the surface along that direction.
pub open spec fn transmission_ray_s(ray: Ray, point: Vec3) -> Ray {
    Ray { origin: correct_s(point, ray.direction), direction: ray.direction }
}

/// What casting a ray into the scene yields: nothing when no shape is hit
/// (the caller substitutes the background color); otherwise the local
/// illumination of the nearest hit, blended with the bounded-depth
/// reflection and transmission casts, each under its toggle.
pub open spec fn cast_ray_s(
    ray: Ray,
    objects: Seq<Shape>,
    lights: Seq<Light>,
    cfg: Cfg,
    bg_color: Color,
    depth: u8,
) -> Option<Color>
    decreases cfg.max_rays as int - depth as int,
{
    match nearest_hit_s(objects, ray) {
        None => None,
        Some((i, d)) => {
            let point = hit_point_s(ray, d as int);
            let mat = shape_material_s(objects[i]);
            let nrm = shape_normal_s(objects[i], point);
            let local = shade_s(objects, lights, point, nrm, ray.direction, mat, cfg);
            let after_reflection = if cfg.reflections && mat.reflectiveness > 0 && depth
                < cfg.max_rays {
                let rcol = match cast_ray_s(
                    reflection_ray_s(ray, point, nrm),
                    objects,
                    lights,
                    cfg,
                    bg_color,
                    (depth + 1) as u8,
                ) {
                    None => bg_color,
                    Some(c) => c,
                };
                cblend_s(local, rcol, mat.reflectiveness as int)
            } else {
                local
            };
            let after_transmission = if cfg.opacity && mat.opacity < SCALE && depth
                < cfg.max_rays {
                let tcol = match cast_ray_s(
                    transmission_ray_s(ray, point),
                    objects,
                    lights,
                    cfg,
                    bg_color,
                    (depth + 1) as u8,
                ) {
                    None => bg_color,
                    Some(c) => c,
                };
                cblend_s(after_reflection, tcol, fsub_s(SCALE as int, mat.opacity as int))
            } else {
                after_reflection
            };
            Some(after_transmission)
        },
    }
}

/// Does any shape block the shadow ray strictly before the light?
fn any_hit_within(objects: &Vec<Shape>, shadow_ray: Ray, light_dist: i64) -> (b: bool)
    ensures
        b == occluded_s(objects@, shadow_ray, light_dist as int),
{
    let n: usize = objects.len();
    let mut i: usize = 0;
    while i < n
        invariant
            i <= n,
            n == objects@.len(),
            forall|j: int| 0 <= j < i ==> !hit_within_s(objects@[j], shadow_ray, light_dist as int),
        decreases n - i,
    {
        match objects[i].intersect(shadow_ray) {
            Some(d) => {
                if d < light_dist {
                    proof {
                        assert(hit_within_s(objects@[i as int], shadow_ray, light_dist as int));
                    }
                    return true;
                }
            },
            None => {},
        }
        i = i + 1;
    }
    false
}

/// The diffuse and specular terms of one unoccluded point light.
fn point_light_terms(
    light: &Light,
    ldir: Vec3,
    normal: Vec3,
    view: Vec3,
    mat: Material,
    cfg: &Cfg,
) -> (c: Color)
    ensures
        c == point_light_terms_s(*light, ldir, normal, view, mat, *cfg),
{
    let diffuse_term: Color = if cfg.diffuse {
        mat.color.mul(light.color).scale(
            fmul(fmul(fmax(0, normal.dot(ldir)), mat.diffuse), light.intensity),
        )
    } else {
        Color::black()
    };
    let specular_term: Color = if cfg.specular {
        light.color.scale(
            fmul(
                fmul(
                    fpow(fmax(0, ldir.reflect(normal).dot(view.neg())), mat.specular_exponent),
                    mat.specular,
                ),
                light.intensity,
            ),
        )
    } else {
        Color::black()
    };
    diffuse_term.add(specular_term)
}

/// The local illumination at a hit point: every light's contribution,
/// summed in scene order.
fn shade(
    objects: &Vec<Shape>,
    lights: &Vec<Light>,
    point: Vec3,
    normal: Vec3,
    view: Vec3,
    mat: Material,
    cfg: &Cfg,
) -> (c: Color)
    ensures
        c == shade_s(objects@, lights@, point, normal, view, mat, *cfg),
{
    let n: usize = lights.len();
    let mut acc: Color = Color::black();
    let mut i: usize = 0;
    while i < n
        invariant
            i <= n,
            n == lights@.len(),
            acc == shade_upto_s(objects@, lights@, i as int, point, normal, view, mat, *cfg),
        decreases n - i,
    {
        let light: &Light = &lights[i];
        let term: Color = match light.light_type {
            LightType::Ambient => light.color.mul(mat.color).scale(light.intensity),
            LightType::Point => {
                let ldir: Vec3 = light.position.sub(point).normalize();
                let ldist: i64 = light.position.sub(point).length();
                let shadowed: bool = if cfg.shadows {
                    let sray = Ray { origin: point.correct(normal), direction: ldir };
                    any_hit_within(objects, sray, ldist)
                } else {
                    false
                };
                if shadowed {
                    Color::black()
                } else {
                    point_light_terms(light, ldir, normal, view, mat, cfg)
                }
            },
        };
        acc = acc.add(term);
        i = i + 1;
    }
    acc
}

/// The nearest hit: the shape index with the smallest positive intersection
/// distance, the earliest index winning ties.
#[verifier::rlimit(60)]
pub fn nearest_hit(objects: &Vec<Shape>, ray: Ray) -> (res: Option<(usize, i64)>)
    ensures
        match res {
            None => nearest_hit_s(objects@, ray) is None,
            Some((i, d)) => i < objects@.len() && nearest_hit_s(objects@, ray) == Some(
                (i as int, d),
            ),
        },
{
    let n: usize = objects.len();
    let mut best: Option<(usize, i64)> = None;
    let mut i: usize = 0;
    while i < n
        invariant
            i <= n,
            n == objects@.len(),
            match best {
                None => nearest_hit_upto_s(objects@, ray, i as int) is None,
                Some((bi, bd)) => bi < i && nearest_hit_upto_s(objects@, ray, i as int) == Some(
                    (bi as int, bd),
                ),
            },
        decreases n - i,
    {
        match objects[i].intersect(ray) {
            Some(d) => {
                match best {
                    None => {
                        best = Some((i, d));
                    },
                    Some((_bi, bd)) => {
                        if d < bd {
                            best = Some((i, d));
                        }
                    },
                }
            },
            None => {},
        }
        i = i + 1;
    }
    best
}

impl Ray {
    pub fn new(origin: Vec3, direction: Vec3) -> (r: Ray)
        ensures
            r == (Ray { origin, direction }),
    {
        Ray { origin, direction }
    }

    /// Cast a ray into the scene: the color seen along it, or nothing when
    /// no shape is hit (the caller substitutes the background color, as the
    /// recursive casts do here).
    pub fn cast_ray(
        ray: Ray,
        objects: &Vec<Shape>,
        lights: &Vec<Light>,
        options: &Cfg,
        bg_color: Color,
        depth: u8,
    ) -> (res: Option<Color>)
        ensures
            res == cast_ray_s(ray, objects@, lights@, *options, bg_color, depth),
        decreases options.max_rays as int - depth as int,
    {
        match nearest_hit(objects, ray) {
            None => None,
            Some((i, d)) => {
                let point: Vec3 = ray.origin.add(ray.direction.scale(d));
                let mat: Material = objects[i].material();
                let nrm: Vec3 = objects[i].normal(point);
                let mut color: Color = shade(objects, lights, point, nrm, ray.direction, mat,
                    options);
                if options.reflections && mat.reflectiveness > 0 && depth < options.max_rays {
                    let rray = Ray { origin: point.correct(nrm), direction: ray.direction.reflect(
                        nrm) };
                    let rcol: Color = match Ray::cast_ray(rray, objects, lights, options, bg_color,
                        depth + 1) {
                        None => bg_color,
                        Some(c) => c,
                    };
                    color = color.blend(rcol, mat.reflectiveness);
                }
                if options.opacity && mat.opacity < SCALE && depth < options.max_rays {
                    let tray = Ray { origin: point.correct(ray.direction), direction:
                        ray.direction };
                    let tcol: Color = match Ray::cast_ray(tray, objects, lights, options, bg_color,
                        depth + 1) {
                        None => bg_color,
                        Some(c) => c,
                    };
                    color = color.blend(tcol, fsub(SCALE, mat.opacity));
                }
                Some(color)
            },
        }
    }
}

/// When every one of the first `n` shapes misses, there is no nearest hit
/// among them.
proof fn lemma_nearest_upto_none(objects: Seq<Shape>, ray: Ray, n: int)
    requires
        forall|i: int| 0 <= i < n ==> (#[trigger] shape_intersect_s(objects[i], ray)) is None,
    ensures
        nearest_hit_upto_s(objects, ray, n) is None,
    decreases n,
{
    if n > 0 {
        lemma_nearest_upto_none(objects, ray, n - 1);
    }
}

/// The meaning of the nearest hit over the first `n` shapes: none is
/// reported exactly when every one misses; a reported hit names a shape
/// the ray hits at that shape's own distance, no shape is hit strictly
/// nearer, and among equal distances the first in scene order is reported.
#[verifier::rlimit(100)]
proof fn lemma_nearest_upto_minimal(objects: Seq<Shape>, ray: Ray, n: int)
    ensures
        match nearest_hit_upto_s(objects, ray, n) {
            None => forall|j: int|
                0 <= j < n ==> (#[trigger] shape_intersect_s(objects[j], ray)) is None,
            Some((i, d)) => {
                &&& 0 <= i < n
                &&& shape_intersect_s(objects[i], ray) == Some(d)
                &&& forall|j: int|
                    0 <= j < n ==> ((#[trigger] shape_intersect_s(objects[j], ray)) matches Some(
                        dj,
                    ) ==> dj >= d)
                &&& forall|j: int|
                    0 <= j < i ==> ((#[trigger] shape_intersect_s(objects[j], ray)) matches Some(
                        dj,
                    ) ==> dj > d)
            },
        },
    decreases n,
{
    if n > 0 {
        lemma_nearest_upto_minimal(objects, ray, n - 1);
        let prev = nearest_hit_upto_s(objects, ray, n - 1);
        let cur = shape_intersect_s(objects[n - 1], ray);
        if cur is None {
            assert(nearest_hit_upto_s(objects, ray, n) == prev);
        } else {
            let d = cur->0;
            if prev is None {
                assert(nearest_hit_upto_s(objects, ray, n) == Some((n - 1, d)));
                assert forall|j: int|
                    0 <= j < n implies ((#[trigger] shape_intersect_s(objects[j], ray)) matches
                    Some(dj) ==> dj >= d) by {
                    if j < n - 1 {
                        assert(shape_intersect_s(objects[j], ray) is None);
                    }
                }
            } else {
                let (pi, pd) = prev->0;
                if d < pd {
                    assert(nearest_hit_upto_s(objects, ray, n) == Some((n - 1, d)));
                    assert forall|j: int|
                        0 <= j < n implies ((#[trigger] shape_intersect_s(objects[j], ray))
                        matches Some(dj) ==> dj >= d) by {}
                    assert forall|j: int|
                        0 <= j < n - 1 implies ((#[trigger] shape_intersect_s(objects[j], ray))
                        matches Some(dj) ==> dj > d) by {}
                } else {
                    assert(nearest_hit_upto_s(objects, ray, n) == prev);
                }
            }
        }
    }
}

/// The meaning of the nearest hit over the whole scene; see
/// `lemma_nearest_upto_minimal`.
pub proof fn lemma_nearest_hit_minimal(objects: Seq<Shape>, ray: Ray)
    ensures
        match nearest_hit_s(objects, ray) {
            None => forall|j: int|
                0 <= j < objects.len() ==> (#[trigger] shape_intersect_s(objects[j], ray))
                    is None,
            Some((i, d)) => {
                &&& 0 <= i < objects.len()
                &&& shape_intersect_s(objects[i], ray) == Some(d)
                &&& forall|j: int|
                    0 <= j < objects.len() ==> ((#[trigger] shape_intersect_s(objects[j], ray))
                        matches Some(dj) ==> dj >= d)
                &&& forall|j: int|
                    0 <= j < i ==> ((#[trigger] shape_intersect_s(objects[j], ray)) matches Some(
                        dj,
                    ) ==> dj > d)
            },
        },
{
    lemma_nearest_upto_minimal(objects, ray, objects.len() as int);
}

/// The nearest hit, like every single intersection, reports only a
/// strictly positive distance.
pub proof fn lemma_nearest_hit_positive(objects: Seq<Shape>, ray: Ray)
    ensures
        nearest_hit_s(objects, ray) matches Some(hit) ==> hit.1 > 0,
{
    lemma_nearest_hit_minimal(objects, ray);
    let nh = nearest_hit_s(objects, ray);
    if nh is Some {
        let (i, d) = nh->0;
        crate::shapes::lemma_shape_intersect_positive(objects[i], ray);
    }
}

/// A ray that every shape misses yields nothing from the cast, and the
/// caller substitutes the configured background color.
pub proof fn lemma_cast_all_miss(
    ray: Ray,
    objects: Seq<Shape>,
    lights: Seq<Light>,
    cfg: Cfg,
    bg_color: Color,
    depth: u8,
)
    requires
        forall|i: int| 0 <= i < objects.len() ==> (#[trigger] shape_intersect_s(objects[i], ray))
            is None,
    ensures
        cast_ray_s(ray, objects, lights, cfg, bg_color, depth) is None,
{
    lemma_nearest_upto_none(objects, ray, objects.len() as int);
}

/// With shadows disabled, occluders change nothing: a light's term at a
/// hit point does not depend on the scene's shapes at all, so the diffuse
/// and specular terms of a blocked light still appear.
pub proof fn lemma_shadows_disabled(
    objects1: Seq<Shape>,
    objects2: Seq<Shape>,
    light: Light,
    point: Vec3,
    normal: Vec3,
    view: Vec3,
    mat: Material,
    cfg: Cfg,
)
    requires
        !cfg.shadows,
    ensures
        light_term_s(objects1, light, point, normal, view, mat, cfg) == light_term_s(
            objects2,
            light,
            point,
            normal,
            view,
            mat,
            cfg,
        ),
{
}

/// With shadows enabled, a point light whose shadow ray is blocked short
/// of the light contributes nothing.
pub proof fn lemma_shadowed_light_dark(
    objects: Seq<Shape>,
    light: Light,
    point: Vec3,
    normal: Vec3,
    view: Vec3,
    mat: Material,
    cfg: Cfg,
)
    requires
        cfg.shadows,
        light.light_type is Point,
        occluded_s(objects, shadow_ray_s(light, point, normal), light_dist_s(light, point)),
    ensures
        light_term_s(objects, light, point, normal, view, mat, cfg) == black_s(),
{
}

/// At the recursion bound the reflection and transmission casts are simply
/// omitted: a hit yields exactly its local illumination, and a miss still
/// yields nothing.
pub proof fn lemma_depth_bound_local_only(
    ray: Ray,
    objects: Seq<Shape>,
    lights: Seq<Light>,
    cfg: Cfg,
    bg_color: Color,
    depth: u8,
)
    requires
        depth >= cfg.max_rays,
    ensures
        cast_ray_s(ray, objects, lights, cfg, bg_color, depth) == match nearest_hit_s(
            objects,
            ray,
        ) {
            None => None::<Color>,
            Some((i, d)) => Some(local_color_s(ray, objects, lights, cfg, i, d)),
        },
{
}

/// The same configuration with reflections switched off.
pub open spec fn without_reflections(cfg: Cfg) -> Cfg {
    Cfg {
        max_rays: cfg.max_rays,
        diffuse: cfg.diffuse,
        specular: cfg.specular,
        shadows: cfg.shadows,
        reflections: false,
        opacity: cfg.opacity,
    }
}

/// Local illumination reads only the diffuse, specular and shadow toggles
/// of the configuration.
proof fn lemma_shade_upto_cfg_agree(
    objects: Seq<Shape>,
    lights: Seq<Light>,
    n: int,
    point: Vec3,
    normal: Vec3,
    view: Vec3,
    mat: Material,
    cfg1: Cfg,
    cfg2: Cfg,
)
    requires
        cfg1.diffuse == cfg2.diffuse,
        cfg1.specular == cfg2.specular,
        cfg1.shadows == cfg2.shadows,
    ensures
        shade_upto_s(objects, lights, n, point, normal, view, mat, cfg1) == shade_upto_s(
            objects,
            lights,
            n,
            point,
            normal,
            view,
            mat,
            cfg2,
        ),
    decreases n,
{
    if n > 0 {
        lemma_shade_upto_cfg_agree(objects, lights, n - 1, point, normal, view, mat, cfg1, cfg2);
    }
}

/// When no material in the scene is reflective, the reflection branch can
/// never fire: casting with reflections enabled gives exactly the color
/// that casting with them disabled gives, at every depth.
pub proof fn lemma_zero_reflectiveness(
    ray: Ray,
    objects: Seq<Shape>,
    lights: Seq<Light>,
    cfg: Cfg,
    bg_color: Color,
    depth: u8,
)
    requires
        forall|i: int|
            0 <= i < objects.len() ==> (#[trigger] shape_material_s(
                objects[i],
            )).reflectiveness == 0,
    ensures
        cast_ray_s(ray, objects, lights, cfg, bg_color, depth) == cast_ray_s(
            ray,
            objects,
            lights,
            without_reflections(cfg),
            bg_color,
            depth,
        ),
    decreases cfg.max_rays as int - depth as int,
{
    let cfg2 = without_reflections(cfg);
    let nh = nearest_hit_s(objects, ray);
    if nh is Some {
        let (i, d) = nh->0;
        lemma_nearest_upto_minimal(objects, ray, objects.len() as int);
        let point = hit_point_s(ray, d as int);
        let mat = shape_material_s(objects[i]);
        let nrm = shape_normal_s(objects[i], point);
        lemma_shade_upto_cfg_agree(
            objects,
            lights,
            lights.len() as int,
            point,
            nrm,
            ray.direction,
            mat,
            cfg,
            cfg2,
        );
        assert(mat.reflectiveness == 0);
        if cfg.opacity && mat.opacity < SCALE && depth < cfg.max_rays {
            lemma_zero_reflectiveness(
                transmission_ray_s(ray, point),
                objects,
                lights,
                cfg,
                bg_color,
                (depth + 1) as u8,
            );
        }
    }
}

} // verus!
