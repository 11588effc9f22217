//! Shapes, intersection boundary behavior and the scene queries.

use iris::fixed::Fx;
use iris::math::{Vec3, Point3, Ray};
use iris::shape::{Sphere, Triangle, Geometry, Primitive};
use iris::scene::Scene;
use iris::sampling::Sampler;
use iris::camera::Camera;
use iris::tile::TileQueue;

fn fxp(x: i64, y: i64, z: i64) -> Point3 {
    Point3::new(Fx::new(x), Fx::new(y), Fx::new(z))
}

fn fxv(x: i64, y: i64, z: i64) -> Vec3 {
    Vec3::new(Fx::new(x), Fx::new(y), Fx::new(z))
}

#[test]
fn triangle_intersect_known_hit() {
    let tri = Triangle::new(
        fxp(0, 0, 2_000_000),
        fxp(1_000_000, 0, 2_000_000),
        fxp(0, 1_000_000, 2_000_000),
    );
    let ray = Ray::new(fxp(200_000, 200_000, 0), fxv(0, 0, 1_000_000));
    let (hit, t) = tri.intersect(&ray).expect("ray through the triangle must hit");
    assert_eq!(t.raw, 2_000_000);
    assert_eq!(hit.point.z.raw, 2_000_000);
    assert_eq!(hit.point.x.raw, 200_000);
}

#[test]
fn triangle_parallel_ray_misses() {
    // a ray exactly parallel to the triangle's plane returns no hit
    let tri = Triangle::new(
        fxp(0, 0, 2_000_000),
        fxp(1_000_000, 0, 2_000_000),
        fxp(0, 1_000_000, 2_000_000),
    );
    let ray = Ray::new(fxp(0, 0, 0), fxv(1_000_000, 0, 0));
    assert!(tri.intersect(&ray).is_none());
    let ray2 = Ray::new(fxp(0, 0, 1_000_000), fxv(700_000, 700_000, 0));
    assert!(tri.intersect(&ray2).is_none());
}

#[test]
fn triangle_outside_barycentric_misses() {
    let tri = Triangle::new(
        fxp(0, 0, 2_000_000),
        fxp(1_000_000, 0, 2_000_000),
        fxp(0, 1_000_000, 2_000_000),
    );
    // aims at the plane but outside the triangle
    let ray = Ray::new(fxp(900_000, 900_000, 0), fxv(0, 0, 1_000_000));
    assert!(tri.intersect(&ray).is_none());
}

#[test]
fn sphere_intersect_known_hit() {
    let s = Sphere::new(fxp(0, 0, 3_000_000), Fx::one());
    let ray = Ray::new(fxp(0, 0, 0), fxv(0, 0, 1_000_000));
    let (hit, t) = s.intersect(&ray).expect("ray through the sphere must hit");
    assert_eq!(t.raw, 2_000_000);
    assert_eq!(hit.point.z.raw, 2_000_000);
    // outward normal at the front pole points back at the ray
    assert_eq!(hit.normal.z.raw, -1_000_000);
    assert!(!hit.back_face);
}

#[test]
fn sphere_tangent_ray_misses() {
    // a tangent ray has discriminant exactly zero and returns no hit
    let s = Sphere::new(fxp(0, 0, 3_000_000), Fx::one());
    let ray = Ray::new(fxp(0, 1_000_000, 0), fxv(0, 0, 1_000_000));
    assert!(s.intersect(&ray).is_none());
}

#[test]
fn sphere_behind_ray_misses() {
    let s = Sphere::new(fxp(0, 0, -3_000_000), Fx::one());
    let ray = Ray::new(fxp(0, 0, 0), fxv(0, 0, 1_000_000));
    assert!(s.intersect(&ray).is_none());
}

#[test]
fn sphere_ray_from_inside_hits_far_wall() {
    let s = Sphere::new(fxp(0, 0, 0), Fx::one());
    let ray = Ray::new(fxp(0, 0, 0), fxv(0, 0, 1_000_000));
    let (hit, t) = s.intersect(&ray).expect("inside ray must hit the far wall");
    assert_eq!(t.raw, 1_000_000);
    assert!(hit.back_face);
}

#[test]
fn shading_frame_is_orthogonal() {
    let tri = Triangle::new(
        fxp(0, 0, 2_000_000),
        fxp(1_000_000, 0, 2_000_000),
        fxp(0, 1_000_000, 2_000_000),
    );
    let ray = Ray::new(fxp(200_000, 200_000, 0), fxv(0, 0, 1_000_000));
    let (hit, _) = tri.intersect(&ray).unwrap();
    let tn = hit.tangent.dot(hit.normal).raw;
    let bn = hit.bitangent.dot(hit.normal).raw;
    let tb = hit.tangent.dot(hit.bitangent).raw;
    assert!(tn.abs() < 2_000, "tangent not orthogonal: {tn}");
    assert!(bn.abs() < 2_000, "bitangent not orthogonal: {bn}");
    assert!(tb.abs() < 2_000, "frame not orthogonal: {tb}");
}

#[test]
fn world_shading_round_trip() {
    let tri = Triangle::new(
        fxp(0, 0, 2_000_000),
        fxp(1_000_000, 0, 2_000_000),
        fxp(0, 1_000_000, 2_000_000),
    );
    let ray = Ray::new(fxp(200_000, 200_000, 0), fxv(0, 0, 1_000_000));
    let (hit, _) = tri.intersect(&ray).unwrap();
    let v = fxv(300_000, -200_000, 900_000);
    let round = hit.shading_to_world(hit.world_to_shading(v));
    assert!((round.x.raw - v.x.raw).abs() < 3_000);
    assert!((round.y.raw - v.y.raw).abs() < 3_000);
    assert!((round.z.raw - v.z.raw).abs() < 3_000);
}

#[test]
fn triangle_light_sample_density_clamped() {
    let tri = Triangle::new(
        fxp(0, 0, 2_000_000),
        fxp(1_000_000, 0, 2_000_000),
        fxp(0, 1_000_000, 2_000_000),
    );
    let floor = Triangle::new(
        fxp(-1_000_000, -1_000_000, 0),
        fxp(1_000_000, -1_000_000, 0),
        fxp(0, -1_000_000, 2_000_000),
    );
    let ray = Ray::new(fxp(0, 0, -1_000_000), fxv(0, -707_106, 707_106));
    let (hit, _) = floor.intersect(&ray).expect("floor must be hit");
    let mut sampler = Sampler::new(vec![500_000, 500_000], 3);
    let (_, pdf) = tri.sample(&hit, &mut sampler);
    // the density is either zero (unreachable) or above the clamp floor
    assert!(pdf.raw == 0 || pdf.raw >= 1_000, "pdf: {}", pdf.raw);
}

#[test]
fn scene_intersection_picks_closest() {
    let scene = Scene::dummy();
    // the emitter sphere at z = 2 with radius one half is the closest
    // thing along +z from the origin
    let ray = Ray::new(fxp(0, 0, 0), fxv(0, 0, 1_000_000));
    let (idx, hit, t) = scene.intersection(&ray).expect("dummy scene must be hit");
    assert_eq!(idx, 0);
    assert_eq!(t.raw, 1_500_000);
    assert_eq!(hit.point.z.raw, 1_500_000);
}

#[test]
fn scene_ray_hits_object_identifies_primitive() {
    let scene = Scene::dummy();
    let ray = Ray::new(fxp(0, 0, 0), fxv(0, 0, 1_000_000));
    assert!(scene.ray_hits_object(&ray, 0));
    assert!(!scene.ray_hits_object(&ray, 1));
    // straight down, the floor sphere is the closest hit
    let down = Ray::new(fxp(0, 0, 0), fxv(0, -1_000_000, 0));
    assert!(scene.ray_hits_object(&down, 1));
}

#[test]
fn scene_ray_hits_point_visibility() {
    let scene = Scene::dummy();
    let ray = Ray::new(fxp(0, 0, 0), fxv(0, 0, 1_000_000));
    // the near surface of the emitter sphere is reachable
    assert!(scene.ray_hits_point(&ray, fxp(0, 0, 1_500_000)));
    // a point beyond it is occluded
    assert!(!scene.ray_hits_point(&ray, fxp(0, 0, 1_900_000)));
}

#[test]
fn camera_center_ray_looks_forward() {
    // the ray through the image center is the optical axis, exactly
    let cam = Camera::new(fxp(0, 0, 0), Fx::one());
    let r = cam.ray(2, 2, 4, 4, Fx::zero(), Fx::zero());
    assert_eq!(r.o.x.raw, 0);
    assert_eq!(r.d.x.raw, 0);
    assert_eq!(r.d.y.raw, 0);
    assert_eq!(r.d.z.raw, 1_000_000);
    // the corner ray leans up and left
    let c = cam.ray(0, 0, 4, 4, Fx::zero(), Fx::zero());
    assert!(c.d.x.raw < 0);
    assert!(c.d.y.raw > 0);
    assert!(c.d.z.raw > 0);
}

#[test]
fn tile_queue_covers_largest_image() {
    // the largest admissible image still tiles exactly
    let q = TileQueue::new(65536, 32, 1);
    assert_eq!(q.len(), 2048);
}

#[test]
fn primitive_dispatch_matches_shape() {
    let s = Sphere::new(fxp(0, 0, 3_000_000), Fx::one());
    let p = Primitive::new_material(Geometry::Sphere(s), 0);
    let ray = Ray::new(fxp(0, 0, 0), fxv(0, 0, 1_000_000));
    let (_, t1) = s.intersect(&ray).unwrap();
    let (_, t2) = p.intersect(&ray).unwrap();
    assert_eq!(t1.raw, t2.raw);
}
