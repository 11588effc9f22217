//! The built-in stages and one colored end-to-end render.

use iris::fixed::Fx;
use iris::math::{Vec3, Point3, Ray};
use iris::scene::Scene;
use iris::sampling::Sampler;
use iris::spectrum::Wavelength;
use iris::integrator::PathIntegrator;
use iris::camera::Camera;
use iris::color::CieTables;
use iris::tile::{TileData, PixelBuffer};
use iris::output::render_tile;

fn sp(x: i64, y: i64, z: i64) -> Point3 {
    Point3::new(Fx::new(x), Fx::new(y), Fx::new(z))
}

fn sv(x: i64, y: i64, z: i64) -> Vec3 {
    Vec3::new(Fx::new(x), Fx::new(y), Fx::new(z))
}

#[test]
fn dispersion_scene_shape() {
    let s = Scene::dispersion();
    assert_eq!(s.primitives.len(), 35);
    assert_eq!(s.lights.len(), 1);
    assert_eq!(s.materials.len(), 35);
}

#[test]
fn boxed_light_scene_shape() {
    let s = Scene::boxed_light();
    assert_eq!(s.primitives.len(), 23);
    assert_eq!(s.lights.len(), 1);
    assert_eq!(s.materials.len(), 23);
}

#[test]
fn glass_on_field_scene_shape() {
    let s = Scene::glass_on_field();
    assert_eq!(s.primitives.len(), 6);
    assert_eq!(s.lights.len(), 2);
    assert_eq!(s.materials.len(), 6);
}

#[test]
fn cornell_box_scene_shape() {
    let s = Scene::cornell_box();
    assert_eq!(s.primitives.len(), 12);
    assert_eq!(s.lights.len(), 1);
    assert_eq!(s.materials.len(), 12);
}

#[test]
fn cornell_box_spheres_scene_shape() {
    let s = Scene::cornell_box_spheres();
    assert_eq!(s.primitives.len(), 7);
    assert_eq!(s.lights.len(), 1);
}

#[test]
fn cornell_box_constant_scene_shape() {
    let s = Scene::cornell_box_constant();
    assert_eq!(s.primitives.len(), 13);
    assert_eq!(s.lights.len(), 2);
}

#[test]
fn dummy_scene_shape() {
    let s = Scene::dummy();
    assert_eq!(s.primitives.len(), 3);
    assert_eq!(s.lights.len(), 1);
}

#[test]
fn cornell_box_walls_are_where_expected() {
    let s = Scene::cornell_box();
    // looking left hits the left wall; looking right hits the right wall
    let left = Ray::new(sp(-200_000, 500_000, 1_000_000), sv(-1_000_000, 0, 0));
    let (li, _, lt) = s.intersection(&left).expect("left wall");
    assert!(li < 2, "left wall primitive: {li}");
    assert_eq!(lt.raw, 800_000);
    let right = Ray::new(sp(-200_000, 500_000, 1_000_000), sv(1_000_000, 0, 0));
    let (ri, _, rt) = s.intersection(&right).expect("right wall");
    assert!((2..4).contains(&ri), "right wall primitive: {ri}");
    assert_eq!(rt.raw, 1_200_000);
    // looking up from the room hits the ceiling light sphere
    let up = Ray::new(sp(0, 0, 1_000_000), sv(0, 1_000_000, 0));
    let (ui, _, ut) = s.intersection(&up).expect("light sphere");
    assert_eq!(ui, 10);
    assert_eq!(ut.raw, 750_000);
}

#[test]
fn pick_one_light_is_in_range() {
    let s = Scene::glass_on_field();
    let mut sampler = Sampler::new(vec![0, 999_999, 500_000], 5);
    for _ in 0..3 {
        let (idx, n) = s.pick_one_light(&mut sampler);
        assert!(idx < 2);
        assert_eq!(n.raw, 2_000_000);
    }
}

#[test]
fn background_emission_is_zero() {
    let s = Scene::dummy();
    let ray = Ray::new(sp(0, 0, 0), sv(0, 0, 1_000_000));
    let w = Wavelength { hero: Fx::new(500_000_000) };
    let bg = s.background_emission(&ray, w);
    assert_eq!(bg.l0.raw, 0);
    assert_eq!(bg.l3.raw, 0);
}

#[test]
fn cornell_render_tints_walls() {
    // a small render of the box: the left wall is orange-tinted (more
    // red than blue), the right wall blue-tinted (more blue than red)
    let scene = Scene::cornell_box();
    let camera = Camera::new(sp(0, 0, 0), Fx::one());
    let integrator = PathIntegrator { hwss: true };
    let tables = CieTables::load();
    let n: usize = 12;
    let mut buffer = PixelBuffer::new(n, n);
    let tile = TileData::new(0, n, n, 4).expect("one tile");
    let mut sampler = Sampler::new(vec![], 77);
    render_tile(&scene, &camera, &integrator, &tables, &tile, 4, &mut sampler, &mut buffer);
    let mut left = (0i64, 0i64);
    let mut right = (0i64, 0i64);
    for y in 0..n {
        for x in 0..2 {
            let m = buffer.mean(y * n + x);
            let s = m.to_srgb(&tables);
            left.0 += s.r.raw;
            left.1 += s.b.raw;
        }
        for x in n - 2..n {
            let m = buffer.mean(y * n + x);
            let s = m.to_srgb(&tables);
            right.0 += s.r.raw;
            right.1 += s.b.raw;
        }
    }
    assert!(left.0 + left.1 > 0, "left wall must be lit");
    assert!(right.0 + right.1 > 0, "right wall must be lit");
    assert!(left.0 > left.1, "left wall red {} vs blue {}", left.0, left.1);
    assert!(right.1 > right.0, "right wall blue {} vs red {}", right.1, right.0);
}
