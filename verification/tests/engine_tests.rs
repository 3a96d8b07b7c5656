//! The shading engine: nearest hit, shadows, reflection, transmission,
//! and the render loop.

use rusty_tracer::camera::Camera;
use rusty_tracer::cfg::Cfg;
use rusty_tracer::color::Color;
use rusty_tracer::fixed::SCALE;
use rusty_tracer::light::{Light, LightType};
use rusty_tracer::material::Material;
use rusty_tracer::ray::Ray;
use rusty_tracer::renderer::Renderer;
use rusty_tracer::shapes::{Plane, Shape, Sphere};
use rusty_tracer::vector::Vec3;

fn matte(color: Color) -> Material {
    Material {
        color,
        diffuse: SCALE,
        specular: 0,
        specular_exponent: 1,
        reflectiveness: 0,
        opacity: SCALE,
    }
}

fn all_on(max_rays: u8) -> Cfg {
    Cfg {
        max_rays,
        diffuse: true,
        specular: true,
        shadows: true,
        reflections: true,
        opacity: true,
    }
}

#[test]
fn cast_miss_returns_none() {
    // Both shapes lie behind the ray: nothing is hit.
    let objects = vec![
        Shape::Sphere(Sphere {
            position: Vec3::new(0, 0, -10 * SCALE),
            radius: 2 * SCALE,
            material: matte(Color::white()),
        }),
        Shape::Plane(Plane {
            position: Vec3::new(0, -8 * SCALE, 0),
            normal: Vec3::new(0, -SCALE, 0),
            material: matte(Color::white()),
        }),
    ];
    let lights = vec![Light {
        light_type: LightType::Ambient,
        position: Vec3::zero(),
        intensity: SCALE,
        color: Color::white(),
    }];
    let ray = Ray { origin: Vec3::zero(), direction: Vec3::new(0, 0, SCALE) };
    let res = Ray::cast_ray(ray, &objects, &lights, &all_on(4), Color::black(), 0);
    assert_eq!(res, None);
}

#[test]
fn diffuse_term_exact_overhead_light() {
    // A white plane lit head-on by a white unit light: exactly white.
    let objects = vec![Shape::Plane(Plane {
        position: Vec3::zero(),
        normal: Vec3::new(0, -SCALE, 0),
        material: matte(Color::white()),
    })];
    let lights = vec![Light {
        light_type: LightType::Point,
        position: Vec3::new(0, 10 * SCALE, 0),
        intensity: SCALE,
        color: Color::white(),
    }];
    let ray = Ray { origin: Vec3::new(0, 5 * SCALE, 0), direction: Vec3::new(0, -SCALE, 0) };
    let res = Ray::cast_ray(ray, &objects, &lights, &all_on(4), Color::black(), 0);
    assert_eq!(res, Some(Color::white()));
}

fn shadow_scene() -> (Vec<Shape>, Vec<Light>) {
    // An opaque sphere sits midway between the lit point on the plane and
    // the point light.
    let objects = vec![
        Shape::Plane(Plane {
            position: Vec3::zero(),
            normal: Vec3::new(0, -SCALE, 0),
            material: matte(Color::white()),
        }),
        Shape::Sphere(Sphere {
            position: Vec3::new(2 * SCALE, 2 * SCALE, 0),
            radius: SCALE,
            material: matte(Color::white()),
        }),
    ];
    let lights = vec![Light {
        light_type: LightType::Point,
        position: Vec3::new(4 * SCALE, 4 * SCALE, 0),
        intensity: SCALE,
        color: Color::white(),
    }];
    (objects, lights)
}

#[test]
fn shadows_enabled_occluded_light_vanishes() {
    let (objects, lights) = shadow_scene();
    let ray = Ray { origin: Vec3::new(0, 5 * SCALE, 0), direction: Vec3::new(0, -SCALE, 0) };
    let mut cfg = all_on(0);
    cfg.specular = false;
    let res = Ray::cast_ray(ray, &objects, &lights, &cfg, Color::black(), 0);
    assert_eq!(res, Some(Color::black()));
}

#[test]
fn shadows_disabled_occluded_light_appears() {
    let (objects, lights) = shadow_scene();
    let ray = Ray { origin: Vec3::new(0, 5 * SCALE, 0), direction: Vec3::new(0, -SCALE, 0) };
    let mut cfg = all_on(0);
    cfg.specular = false;
    cfg.shadows = false;
    let res = Ray::cast_ray(ray, &objects, &lights, &cfg, Color::black(), 0).unwrap();
    assert!(res.r > 0 && res.g > 0 && res.b > 0);
    assert_eq!(res.r, res.g);
    assert_eq!(res.g, res.b);
}

fn mirror_sphere_scene() -> (Vec<Shape>, Vec<Light>) {
    let objects = vec![Shape::Sphere(Sphere {
        position: Vec3::new(0, 0, -5 * SCALE),
        radius: 2 * SCALE,
        material: Material {
            color: Color::new(SCALE, SCALE / 2, SCALE / 4),
            diffuse: 0,
            specular: 0,
            specular_exponent: 1,
            reflectiveness: SCALE,
            opacity: SCALE,
        },
    })];
    let lights = vec![Light {
        light_type: LightType::Ambient,
        position: Vec3::zero(),
        intensity: SCALE / 2,
        color: Color::white(),
    }];
    (objects, lights)
}

#[test]
fn reflection_clamped_at_depth_bound() {
    // Full reflectiveness with a zero ray budget: the reflection term is
    // exactly absent, leaving only the ambient term.
    let (objects, lights) = mirror_sphere_scene();
    let ray = Ray { origin: Vec3::zero(), direction: Vec3::new(0, 0, -SCALE) };
    let res = Ray::cast_ray(ray, &objects, &lights, &all_on(0), Color::new(SCALE, 0, 0), 0);
    assert_eq!(res, Some(Color::new(SCALE / 2, SCALE / 4, SCALE / 8)));
}

#[test]
fn full_reflection_replaces_local_color() {
    // Full reflectiveness with budget: the mirror ray escapes the scene,
    // so the color is exactly the background.
    let (objects, lights) = mirror_sphere_scene();
    let bg = Color::new(SCALE, 0, 0);
    let ray = Ray { origin: Vec3::zero(), direction: Vec3::new(0, 0, -SCALE) };
    let res = Ray::cast_ray(ray, &objects, &lights, &all_on(1), bg, 0);
    assert_eq!(res, Some(bg));
}

#[test]
fn zero_reflectiveness_equals_reflections_off() {
    let (objects, lights) = shadow_scene();
    let ray = Ray { origin: Vec3::new(0, 5 * SCALE, 0), direction: Vec3::new(0, -SCALE, 0) };
    let on = all_on(4);
    let mut off = all_on(4);
    off.reflections = false;
    let bg = Color::new(0, SCALE / 2, 0);
    assert_eq!(
        Ray::cast_ray(ray, &objects, &lights, &on, bg, 0),
        Ray::cast_ray(ray, &objects, &lights, &off, bg, 0)
    );
}

#[test]
fn transparent_sphere_passes_background_through() {
    let objects = vec![Shape::Sphere(Sphere {
        position: Vec3::zero(),
        radius: 2 * SCALE,
        material: Material {
            color: Color::white(),
            diffuse: SCALE,
            specular: 0,
            specular_exponent: 1,
            reflectiveness: 0,
            opacity: 0,
        },
    })];
    let lights: Vec<Light> = vec![];
    let bg = Color::new(SCALE / 2, SCALE / 4, SCALE);
    let ray = Ray { origin: Vec3::new(0, 0, 5 * SCALE), direction: Vec3::new(0, 0, -SCALE) };
    let seen = Ray::cast_ray(ray, &objects, &lights, &all_on(4), bg, 0);
    assert_eq!(seen, Some(bg));
    let mut opaque_cfg = all_on(4);
    opaque_cfg.opacity = false;
    let blocked = Ray::cast_ray(ray, &objects, &lights, &opaque_cfg, bg, 0);
    assert_eq!(blocked, Some(Color::black()));
}

fn small_renderer(direction: Vec3) -> Renderer {
    let (objects, lights) = shadow_scene();
    Renderer {
        width: 4,
        height: 4,
        camera: Camera::new(Vec3::new(0, 5 * SCALE, 0), direction, 90 * SCALE, SCALE),
        objects,
        lights,
        bg_color: Color::new(0, 0, SCALE / 2),
        options: all_on(2),
    }
}

#[test]
fn render_is_deterministic() {
    // Rendering the same immutable scene twice is bit-identical.
    let r = small_renderer(Vec3::new(0, -SCALE, 0));
    let first = r.render();
    let second = r.render();
    assert_eq!(first, second);
    assert_eq!(first.len(), 16);
}

#[test]
fn render_agrees_with_per_pixel_cast() {
    let r = small_renderer(Vec3::new(0, -SCALE, 0));
    let buf = r.render();
    for y in 0..4u32 {
        for x in 0..4u32 {
            assert_eq!(buf[(y * 4 + x) as usize], r.render_pixel(x, y));
        }
    }
}

#[test]
fn render_substitutes_background_on_miss() {
    // Camera pointing straight up: no shape is ever hit.
    let r = small_renderer(Vec3::new(0, SCALE, 0));
    let buf = r.render();
    for c in buf {
        assert_eq!(c, Color::new(0, 0, SCALE / 2));
    }
}

#[test]
fn validate_accepts_good_and_rejects_bad_scene() {
    let good = small_renderer(Vec3::new(0, -SCALE, 0));
    assert!(good.validate());
    let mut flat = small_renderer(Vec3::new(0, -SCALE, 0));
    flat.width = 0;
    assert!(!flat.validate());
    let mut degenerate = small_renderer(Vec3::new(0, -SCALE, 0));
    degenerate.objects.push(Shape::Sphere(Sphere {
        position: Vec3::zero(),
        radius: 0,
        material: matte(Color::white()),
    }));
    assert!(!degenerate.validate());
    let mut dark = small_renderer(Vec3::new(0, -SCALE, 0));
    dark.lights.push(Light {
        light_type: LightType::Point,
        position: Vec3::zero(),
        intensity: -SCALE,
        color: Color::white(),
    });
    assert!(!dark.validate());
}
