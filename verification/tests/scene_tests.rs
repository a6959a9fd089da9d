//! Scene-level behavior: the nearest-intersection query, shadows, the
//! recursive tracer, and the pixel estimators.

use abctracer::environment::Environment;
use abctracer::geometry::{Solid, Sphere};
use abctracer::light::{Light, PointLight, SphericLight, SpotLight};
use abctracer::mediums::Medium;
use abctracer::ray::Ray;
use abctracer::render::{
    render_scene, render_scene_supersampling_grid, render_scene_supersampling_grid_adaptive,
    NullRenderBackend, RenderBackend, RenderError,
};
use abctracer::surface::Surface;
use abctracer::vector::Vector;
use abctracer::SCALE;

fn fx(v: f64) -> i64 {
    (v * SCALE as f64).round() as i64
}

fn vec3(x: f64, y: f64, z: f64) -> Vector {
    Vector {
        x: fx(x),
        y: fx(y),
        z: fx(z),
    }
}

fn fxmul(a: i64, b: i64) -> i64 {
    ((a as i128 * b as i128) / SCALE as i128) as i64
}

fn fxdiv(a: i64, b: i64) -> i64 {
    ((a as i128 * SCALE as i128) / b as i128) as i64
}

fn white() -> Vector {
    vec3(1.0, 1.0, 1.0)
}

fn diffuse_surface() -> Surface {
    Surface {
        k_d: fx(0.8),
        color: white(),
        medium: Medium::glass(),
        ..Surface::new()
    }
}

fn luminance(c: Vector) -> i64 {
    c.x + c.y + c.z
}

#[test]
fn medium_constants() {
    assert_eq!(Medium::air().n_refr, fx(1.0));
    assert_eq!(Medium::glass().n_refr, fx(1.5));
}

#[test]
fn surface_new_is_zeroed() {
    let s = Surface::new();
    assert_eq!(s.k_a, 0);
    assert_eq!(s.k_d, 0);
    assert_eq!(s.k_s, 0);
    assert_eq!(s.k_r, 0);
    assert_eq!(s.k_t, 0);
    assert_eq!(s.p, 0);
    assert_eq!(s.color, Vector::from_scalar(0));
}

#[test]
fn environment_threshold() {
    let environment = Environment::new();
    assert_eq!(environment.threshold(), fx(0.01));
}

#[test]
fn camera_basis_from_axes() {
    let mut environment = Environment::new();
    environment.set_camera(
        &vec3(0.0, 0.0, 0.0),
        &vec3(0.0, 0.0, 1.0),
        &vec3(0.0, 1.0, 0.0),
    );
    let ray = environment.camera(0, 0);
    assert_eq!(ray.org, vec3(0.0, 0.0, 0.0));
    assert_eq!(ray.dir, vec3(0.0, 0.0, 1.0));

    let ray = environment.camera(fx(1.0), 0);
    let expected = vec3(1.0, 0.0, 1.0).normalize();
    assert_eq!(ray.dir, expected);
}

#[test]
fn empty_scene_traces_to_background() {
    let mut environment = Environment::new();
    environment.set_camera(
        &vec3(0.0, 0.0, 0.0),
        &vec3(0.0, 0.0, 1.0),
        &vec3(0.0, 1.0, 0.0),
    );
    let air = Medium::air();
    let background = Vector {
        x: 0,
        y: 838860,
        z: 838860,
    };
    for &(x, y) in [(0.0, 0.0), (0.5, -0.5), (-1.0, 1.0)].iter() {
        let ray = environment.camera(fx(x), fx(y));
        assert_eq!(environment.trace(&air, SCALE, &ray), background);
    }
}

#[test]
fn nearest_hit_is_order_independent() {
    let near = Solid::Sphere(Sphere::new(diffuse_surface(), vec3(5.0, 0.0, 0.0), fx(1.0)));
    let far = Solid::Sphere(Sphere::new(diffuse_surface(), vec3(7.0, 0.0, 0.0), fx(1.0)));

    let mut env1 = Environment::new();
    env1.add_solid(near);
    env1.add_solid(far);

    let mut env2 = Environment::new();
    env2.add_solid(far);
    env2.add_solid(near);

    let ray = Ray::new(vec3(0.0, 0.0, 0.0), vec3(1.0, 0.0, 0.0));
    let (i1, d1) = env1.intersect(&ray).unwrap();
    let (i2, d2) = env2.intersect(&ray).unwrap();
    assert_eq!(d1, fx(4.0));
    assert_eq!(d2, fx(4.0));
    assert_eq!(env1.solids[i1], env2.solids[i2]);
    assert_eq!(env1.solids[i1], near);
}

fn shadow_through(k_t: i64) -> i64 {
    let mut environment = Environment::new();
    let occluder_surface = Surface {
        k_t,
        ..diffuse_surface()
    };
    environment.add_solid(Solid::Sphere(Sphere::new(
        occluder_surface,
        vec3(0.0, 5.0, 0.0),
        fx(1.0),
    )));
    let light = Light::Point(PointLight::new(white(), vec3(0.0, 10.0, 0.0), fx(10.0)));
    let p = vec3(0.0, 0.0, 0.0);
    let mut l = Vector::from_scalar(0);
    light.shadow(&p, &mut l, &environment)
}

#[test]
fn shadow_attenuation_multiplies_transmissive_coefficients() {
    // The shadow ray crosses the occluding sphere twice: once entering,
    // once leaving.
    let k_t = fx(0.8);
    assert_eq!(shadow_through(k_t), fxmul(k_t, k_t));
}

#[test]
fn shadow_attenuation_is_monotone_in_transmissive_coefficient() {
    let high = shadow_through(fx(0.8));
    let low = shadow_through(fx(0.5));
    let lower = shadow_through(fx(0.1));
    assert!(high >= low && low >= lower);
    assert!(lower >= 0);
}

#[test]
fn opaque_occluder_blocks_the_light_exactly() {
    assert_eq!(shadow_through(fx(0.005)), 0);
}

#[test]
fn unobstructed_point_light_attenuates_with_squared_distance() {
    let mut environment = Environment::new();
    environment.add_solid(Solid::Sphere(Sphere::new(
        diffuse_surface(),
        vec3(50.0, 50.0, 50.0),
        fx(1.0),
    )));
    let light = Light::Point(PointLight::new(white(), vec3(0.0, 10.0, 0.0), fx(5.0)));
    let p = vec3(0.0, 0.0, 0.0);
    let mut l = Vector::from_scalar(0);
    assert_eq!(light.shadow(&p, &mut l, &environment), fx(0.25));
    assert_eq!(l, vec3(0.0, 1.0, 0.0));
}

#[test]
fn spheric_light_attenuates_like_a_point_light_and_reads_the_scene_sample() {
    let environment = Environment::new();
    let light = Light::Spheric(SphericLight::new(
        white(),
        vec3(0.0, 10.0, 0.0),
        fx(1.0),
        fx(5.0),
    ));
    let p = vec3(0.0, 0.0, 0.0);
    let mut l = Vector::from_scalar(0);
    assert_eq!(light.shadow(&p, &mut l, &environment), fx(0.25));

    let mut jittered = Environment::new();
    jittered.set_random_vector(vec3(0.0, 2.0, 0.0));
    let mut l2 = Vector::from_scalar(0);
    // The perturbed target sits at distance 12, so the attenuation drops.
    let att0 = fxdiv(fx(5.0), fx(12.0));
    assert_eq!(light.shadow(&p, &mut l2, &jittered), fxmul(att0, att0));
}

#[test]
fn spot_light_full_beam_inside_the_cone() {
    let environment = Environment::new();
    let light = Light::Spot(SpotLight::new(
        white(),
        vec3(0.0, 10.0, 0.0),
        vec3(0.0, -1.0, 0.0),
        fx(0.9),
        fx(0.5),
        2,
        fx(10.0),
    ));
    let p = vec3(0.0, 0.0, 0.0);
    let mut l = Vector::from_scalar(0);
    assert_eq!(light.shadow(&p, &mut l, &environment), fx(1.0));
}

#[test]
fn spot_light_dark_outside_the_cone() {
    let environment = Environment::new();
    let light = Light::Spot(SpotLight::new(
        white(),
        vec3(0.0, 10.0, 0.0),
        vec3(1.0, 0.0, 0.0),
        fx(0.9),
        fx(0.5),
        2,
        fx(10.0),
    ));
    let p = vec3(0.0, 0.0, 0.0);
    let mut l = Vector::from_scalar(0);
    assert_eq!(light.shadow(&p, &mut l, &environment), 0);
}

#[test]
fn lit_sphere_is_brighter_at_the_center_than_at_the_edge() {
    let mut environment = Environment::new();
    environment.set_camera(
        &vec3(0.0, 0.0, 0.0),
        &vec3(0.0, 0.0, 1.0),
        &vec3(0.0, 1.0, 0.0),
    );
    environment.add_solid(Solid::Sphere(Sphere::new(
        diffuse_surface(),
        vec3(0.0, 0.0, 5.0),
        fx(1.0),
    )));
    environment.add_light(Light::Point(PointLight::new(
        white(),
        vec3(0.0, 10.0, 0.0),
        fx(10.0),
    )));
    let air = Medium::air();

    let center_ray = environment.camera(0, 0);
    let center = environment.trace(&air, SCALE, &center_ray);

    let edge_ray = environment.camera(0, fx(-0.19));
    let edge = environment.trace(&air, SCALE, &edge_ray);

    let off_ray = environment.camera(fx(0.5), fx(0.5));
    let off = environment.trace(&air, SCALE, &off_ray);

    assert!(luminance(center) > luminance(edge));
    assert_eq!(
        off,
        Vector {
            x: 0,
            y: 838860,
            z: 838860,
        }
    );
}

#[test]
fn point_sampling_renders_without_error() {
    let mut environment = Environment::new();
    environment.add_solid(Solid::Sphere(Sphere::new(
        diffuse_surface(),
        vec3(0.0, 0.0, 5.0),
        fx(1.0),
    )));
    environment.add_light(Light::Point(PointLight::new(
        white(),
        vec3(0.0, 10.0, 0.0),
        fx(10.0),
    )));
    let mut backend = NullRenderBackend::new();
    assert!(render_scene(&environment, fx(1.0), fx(1.0), 8, 8, &mut backend).is_ok());
}

#[test]
fn grid_supersampling_renders_without_error() {
    let environment = Environment::new();
    let mut backend = NullRenderBackend::new();
    assert!(render_scene_supersampling_grid(
        &environment,
        fx(1.0),
        fx(1.0),
        4,
        4,
        3,
        3,
        &mut backend
    )
    .is_ok());
}

#[test]
fn adaptive_sampling_stops_at_the_cap_when_the_bound_is_never_met() {
    let environment = Environment::new();
    let mut backend = NullRenderBackend::new();
    // A variance bound of 0 is never met, so every pixel runs to the cap;
    // the render still finishes.
    assert!(render_scene_supersampling_grid_adaptive(
        &environment,
        fx(1.0),
        fx(1.0),
        4,
        4,
        2,
        2,
        0,
        &mut backend
    )
    .is_ok());
}

#[test]
fn grid_pixel_sums_the_sub_grid_samples() {
    let environment = Environment::new();
    let background = Vector {
        x: 0,
        y: 838860,
        z: 838860,
    };
    let sum = abctracer::render::grid_pixel(&environment, 0, 0, fx(0.1), fx(0.1), 2, 2);
    assert_eq!(
        sum,
        Vector {
            x: 0,
            y: background.y * 4,
            z: background.z * 4,
        }
    );
}

#[test]
fn adaptive_pixel_of_a_flat_region_stops_after_one_batch() {
    let environment = Environment::new();
    let background = Vector {
        x: 0,
        y: 838860,
        z: 838860,
    };
    // Identical samples have variance 0, so a positive bound is met at once
    // and the mean is exactly one sample.
    let mean = abctracer::render::adaptive_pixel(&environment, 0, 0, fx(0.1), fx(0.1), 2, 2, fx(0.001));
    assert_eq!(mean, background);
}

#[test]
fn reflective_and_refractive_surfaces_recurse_without_failing() {
    let mut environment = Environment::new();
    environment.set_camera(
        &vec3(0.0, 0.0, 0.0),
        &vec3(0.0, 0.0, 1.0),
        &vec3(0.0, 1.0, 0.0),
    );
    let glassy = Surface {
        k_d: fx(0.1),
        k_s: fx(0.3),
        k_r: fx(0.4),
        k_t: fx(0.5),
        p: 8,
        color: white(),
        medium: Medium::glass(),
        ..Surface::new()
    };
    environment.add_solid(Solid::Sphere(Sphere::new(glassy, vec3(0.0, 0.0, 5.0), fx(1.0))));
    environment.add_light(Light::Point(PointLight::new(
        white(),
        vec3(0.0, 10.0, 0.0),
        fx(10.0),
    )));
    let air = Medium::air();
    let ray = environment.camera(0, 0);
    let color = environment.trace(&air, SCALE, &ray);
    // The ray hits the sphere, so the result is shaded, not background.
    assert_ne!(
        color,
        Vector {
            x: 0,
            y: 838860,
            z: 838860,
        }
    );
}

struct FailingBackend;

impl RenderBackend for FailingBackend {
    fn render_size(&mut self, _width: u32, _height: u32) {}

    fn start_render(&mut self) -> Result<(), RenderError> {
        Err(RenderError {
            message: String::from("sink closed"),
        })
    }

    fn finish_render(&mut self) -> Result<(), RenderError> {
        Ok(())
    }

    fn put_pixel(&mut self, _x: u32, _y: u32, _color: &Vector) -> Result<(), RenderError> {
        Ok(())
    }
}

#[test]
fn render_aborts_on_the_first_sink_failure() {
    let environment = Environment::new();
    let mut backend = FailingBackend;
    let result = render_scene(&environment, fx(1.0), fx(1.0), 4, 4, &mut backend);
    assert!(matches!(result, Err(RenderError { .. })));
}
