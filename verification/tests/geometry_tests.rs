//! Primitive intersections, on exact fixed-point scenes.

use abctracer::geometry::{Cuboid, Cylinder, Plane, Rect, Sphere, Triangle};
use abctracer::ray::Ray;
use abctracer::surface::Surface;
use abctracer::vector::Vector;
use abctracer::SCALE;

fn fx(v: f64) -> i64 {
    (v * SCALE as f64).round() as i64
}

fn vec3(x: f64, y: f64, z: f64) -> Vector {
    Vector {
        x: fx(x),
        y: fx(y),
        z: fx(z),
    }
}

#[test]
fn sphere_should_intersect_case_1() {
    let sphere = Sphere::new(Surface::new(), vec3(10.0, 0.0, 0.0), fx(1.0));

    let ray = Ray::new(vec3(0.0, 0.0, 0.0), vec3(1.0, 0.0, 0.0));
    assert!(sphere.intersect(&ray).is_some());

    let dir = vec3(10.0, 1.001, 0.0).normalize();
    let ray = Ray::new(Vector::from_scalar(0), dir);
    assert!(sphere.intersect(&ray).is_some());

    let dir = vec3(10.0, 1.01, 0.0).normalize();
    let ray = Ray::new(Vector::from_scalar(0), dir);
    assert!(sphere.intersect(&ray).is_none());
}

#[test]
fn sphere_axis_hit_distance() {
    let sphere = Sphere::new(Surface::new(), vec3(10.0, 0.0, 0.0), fx(1.0));
    let ray = Ray::new(vec3(0.0, 0.0, 0.0), vec3(1.0, 0.0, 0.0));
    let t = sphere.intersect(&ray).unwrap();
    assert!(fx(8.999) < t && t < fx(9.001), "hit distance {}", t);
}

#[test]
fn sphere_normal_points_outward() {
    let sphere = Sphere::new(Surface::new(), vec3(10.0, 0.0, 0.0), fx(2.0));
    let n = sphere.find_normal(&vec3(12.0, 0.0, 0.0));
    assert_eq!(n, vec3(1.0, 0.0, 0.0));
}

#[test]
fn cylinder_should_intersect_case_1() {
    let cylinder = Cylinder::new(
        Surface::new(),
        vec3(0.0, 10.0, 0.0),
        vec3(0.0, 0.0, 1.0),
        fx(1.0),
    );

    let dir = vec3(0.0, 1.0, 0.0).normalize();
    let ray = Ray::new(Vector::from_scalar(0), dir);
    assert!(cylinder.intersect(&ray).is_some());

    let dir = vec3(0.0, 1.0, 0.1).normalize();
    let ray = Ray::new(Vector::from_scalar(0), dir);
    assert!(cylinder.intersect(&ray).is_some());

    let dir = vec3(0.0, 1.0, -0.1).normalize();
    let ray = Ray::new(Vector::from_scalar(0), dir);
    assert!(cylinder.intersect(&ray).is_none());
}

#[test]
fn cylinder_side_normal() {
    let cylinder = Cylinder::new(
        Surface::new(),
        vec3(0.0, 10.0, 0.0),
        vec3(0.0, 0.0, 1.0),
        fx(1.0),
    );
    let n = cylinder.find_normal(&vec3(0.0, 9.0, 0.5));
    assert_eq!(n, vec3(0.0, -1.0, 0.0));
}

#[test]
fn plane_axis_hit() {
    let plane = Plane::new(Surface::new(), vec3(0.0, 1.0, 0.0), fx(-5.0));
    let ray = Ray::new(Vector::from_scalar(0), vec3(0.0, 1.0, 0.0));
    assert_eq!(plane.intersect(&ray), Some(fx(5.0)));

    let ray = Ray::new(Vector::from_scalar(0), vec3(1.0, 0.0, 0.0));
    assert_eq!(plane.intersect(&ray), None);
}

#[test]
fn plane_from_abcd_scales_the_normal() {
    let plane = Plane::from_abcd(Surface::new(), fx(0.0), fx(2.0), fx(0.0), fx(-10.0));
    let ray = Ray::new(Vector::from_scalar(0), vec3(0.0, 1.0, 0.0));
    assert_eq!(plane.intersect(&ray), Some(fx(5.0)));
}

#[test]
fn rect_hit_inside_and_miss_outside() {
    let rect = Rect::new(
        Surface::new(),
        vec3(-1.0, -1.0, 5.0),
        vec3(2.0, 0.0, 0.0),
        vec3(0.0, 2.0, 0.0),
    );
    let ray = Ray::new(Vector::from_scalar(0), vec3(0.0, 0.0, 1.0));
    assert_eq!(rect.intersect(&ray), Some(fx(5.0)));

    let ray = Ray::new(vec3(2.0, 0.0, 0.0), vec3(0.0, 0.0, 1.0));
    assert_eq!(rect.intersect(&ray), None);
}

#[test]
fn triangle_half_space_test() {
    let triangle = Triangle::new(
        Surface::new(),
        vec3(0.0, 0.0, 5.0),
        vec3(2.0, 0.0, 0.0),
        vec3(0.0, 2.0, 0.0),
    );
    let ray = Ray::new(vec3(0.5, 0.5, 0.0), vec3(0.0, 0.0, 1.0));
    assert_eq!(triangle.intersect(&ray), Some(fx(5.0)));

    let ray = Ray::new(vec3(1.5, 1.5, 0.0), vec3(0.0, 0.0, 1.0));
    assert_eq!(triangle.intersect(&ray), None);
}

#[test]
fn cuboid_slab_hit() {
    let cuboid = Cuboid::new(
        Surface::new(),
        vec3(-1.0, -1.0, 4.0),
        vec3(2.0, 0.0, 0.0),
        vec3(0.0, 2.0, 0.0),
        vec3(0.0, 0.0, 2.0),
    );
    let ray = Ray::new(Vector::from_scalar(0), vec3(0.0, 0.0, 1.0));
    assert_eq!(cuboid.intersect(&ray), Some(fx(4.0)));

    let ray = Ray::new(Vector::from_scalar(0), vec3(0.0, 0.0, -1.0));
    assert_eq!(cuboid.intersect(&ray), None);
}

#[test]
fn cuboid_normal_faces_away_from_center() {
    let cuboid = Cuboid::new(
        Surface::new(),
        vec3(-1.0, -1.0, 4.0),
        vec3(2.0, 0.0, 0.0),
        vec3(0.0, 2.0, 0.0),
        vec3(0.0, 0.0, 2.0),
    );
    let n = cuboid.find_normal(&vec3(0.0, 0.0, 4.0));
    assert_eq!(n, vec3(0.0, 0.0, -1.0));
}
