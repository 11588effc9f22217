//! Integrators, materials, the accumulator and small end-to-end renders.

use iris::fixed::Fx;
use iris::math::{Vec3, Point3, Ray};
use iris::bsdf::{Bsdf, LambertianBsdf, SpecularBsdf, FresnelBsdf};
use iris::spectrum::{Spectrum, Wavelength, PdfSet};
use iris::sampling::Sampler;
use iris::scene::Scene;
use iris::shape::{Geometry, Sphere, Triangle};
use iris::integrator::{PathIntegrator, HwssModified};
use iris::camera::Camera;
use iris::color::CieTables;
use iris::tile::{fold_tile, tile_after_batch, TileData, TileQueue, PixelBuffer};
use iris::output::{render_tile, buffer_to_rgba, encode_image};
use iris::color::Xyz;

fn rp(x: i64, y: i64, z: i64) -> Point3 {
    Point3::new(Fx::new(x), Fx::new(y), Fx::new(z))
}

fn rv(x: i64, y: i64, z: i64) -> Vec3 {
    Vec3::new(Fx::new(x), Fx::new(y), Fx::new(z))
}

fn hero(nm: i64) -> Wavelength {
    Wavelength { hero: Fx::new(nm) }
}

#[test]
fn lambertian_sample_pdf_agrees_with_pdf() {
    // the density set returned by sample equals what pdf answers for the
    // sampled direction, lane for lane, exactly
    let l = LambertianBsdf::new(Spectrum::constant(Fx::new(800_000)));
    let wo = rv(0, 0, 1_000_000);
    let w = hero(500_000_000);
    let mut sampler = Sampler::new(vec![], 11);
    for _ in 0..200 {
        let (wi, _, pdfs) = l.sample(wo, w, &mut sampler);
        let direct = l.pdf(wi, wo, w);
        assert_eq!(pdfs.l0.raw, direct.l0.raw);
        assert_eq!(pdfs.l1.raw, direct.l1.raw);
        assert_eq!(pdfs.l2.raw, direct.l2.raw);
        assert_eq!(pdfs.l3.raw, direct.l3.raw);
    }
}

#[test]
fn lambertian_white_furnace() {
    // cosine-weighted sampling makes each sample's estimate
    // bsdf * cos / pdf equal the albedo; the average over many samples
    // must reproduce the albedo well within half a percent
    let albedo: i64 = 800_000;
    let l = LambertianBsdf::new(Spectrum::constant(Fx::new(albedo)));
    let wo = rv(0, 0, 1_000_000);
    let w = hero(500_000_000);
    let mut sampler = Sampler::new(vec![], 987);
    let n: i64 = 10_000;
    let mut sum: i64 = 0;
    let mut taken: i64 = 0;
    for _ in 0..n {
        let (wi, f, pdfs) = l.sample(wo, w, &mut sampler);
        if pdfs.hero().raw > 0 {
            let est = f.l0.mul(wi.cos_theta().abs()).div(pdfs.hero());
            sum += est.raw;
            taken += 1;
        }
    }
    let mean = sum / taken;
    let err = (mean - albedo).abs();
    assert!(err * 200 < albedo, "furnace mean {mean} vs albedo {albedo}");
}

#[test]
fn specular_sample_is_mirror_direction() {
    let s = SpecularBsdf::new(Spectrum::constant(Fx::new(900_000)));
    let wo = rv(300_000, -200_000, 932_737);
    let w = hero(500_000_000);
    let mut sampler = Sampler::new(vec![], 5);
    let (wi, f, pdfs) = s.sample(wo, w, &mut sampler);
    assert_eq!(wi.x.raw, -300_000);
    assert_eq!(wi.y.raw, 200_000);
    assert_eq!(wi.z.raw, 932_737);
    assert_eq!(pdfs.l0.raw, 1_000_000);
    // the folded Dirac factor: bsdf * cos / pdf equals the tint
    let carried = f.l0.mul(wi.cos_theta().abs()).div(pdfs.hero()).raw;
    assert!((carried - 900_000).abs() <= 3, "carried: {carried}");
    // evaluate and pdf answer zero off the delta
    assert_eq!(s.evaluate(wi, wo, w).l0.raw, 0);
    assert_eq!(s.pdf(wi, wo, w).l0.raw, 0);
    assert!(s.is_specular());
}

#[test]
fn fresnel_dispersion_spreads_ior() {
    // with a positive dispersion coefficient, shorter wavelengths see a
    // higher index of refraction
    let f = FresnelBsdf::new(
        Spectrum::constant(Fx::one()),
        Spectrum::constant(Fx::one()),
        Fx::new(1_550_000),
        Fx::new(100_000),
    );
    assert_eq!(f.ior_at(Fx::new(380_000_000)).raw, 1_600_000);
    assert_eq!(f.ior_at(Fx::new(550_000_000)).raw, 1_550_000);
    assert_eq!(f.ior_at(Fx::new(720_000_000)).raw, 1_500_000);
    assert!(f.is_specular());
    assert_eq!(f.evaluate(rv(0, 0, 1_000_000), rv(0, 0, 1_000_000), hero(500_000_000)).l0.raw, 0);
}

#[test]
fn fresnel_refraction_keeps_valid_density() {
    let f = FresnelBsdf::new(
        Spectrum::constant(Fx::one()),
        Spectrum::constant(Fx::one()),
        Fx::new(1_550_000),
        Fx::new(100_000),
    );
    let wo = rv(0, 600_000, 800_000);
    let w = hero(380_000_000);
    // a unit sample of zero forces the reflect branch only when the
    // hero Fresnel term is positive; either way the hero density is a
    // Fresnel share in [0, 1]
    for seed in [1u64, 2, 3, 4, 5] {
        let mut sampler = Sampler::new(vec![], seed);
        let (_, _, pdfs) = f.sample(wo, w, &mut sampler);
        assert!((0..=1_000_000).contains(&pdfs.l0.raw), "hero pdf: {}", pdfs.l0.raw);
    }
}

#[test]
fn fresnel_refraction_zeroes_diverging_lanes() {
    // under refraction, the non-hero lanes whose Snell direction diverges
    // from the hero's beyond the cutoff carry zero reflectance, so the
    // hero alone carries their energy: the dispersion mechanism
    let f = FresnelBsdf::new(
        Spectrum::constant(Fx::one()),
        Spectrum::constant(Fx::one()),
        Fx::new(1_550_000),
        Fx::new(100_000),
    );
    let wo = rv(0, 600_000, 800_000);
    let w = hero(380_000_000);
    // a unit sample of one half exceeds the hero Fresnel reflectance at
    // this incidence, forcing the refraction branch
    let mut sampler = Sampler::new(vec![500_000], 1);
    let (wi, bsdf, pdfs) = f.sample(wo, w, &mut sampler);
    assert!(wi.z.raw < 0, "transmitted direction must cross the surface");
    assert!(bsdf.l0.raw > 0, "the hero lane must carry energy");
    assert_eq!(bsdf.l1.raw, 0);
    assert_eq!(bsdf.l2.raw, 0);
    assert_eq!(bsdf.l3.raw, 0);
    // the diverging lanes keep their own one-minus-Fresnel density
    assert!(pdfs.l1.raw > 0 && pdfs.l2.raw > 0 && pdfs.l3.raw > 0);
}

#[test]
fn integrator_no_emitters_is_black() {
    // a scene without lights yields exactly zero radiance
    let mut scene = Scene::empty();
    let gray = Bsdf::Lambertian(LambertianBsdf::new(Spectrum::constant(Fx::new(800_000))));
    scene.add_material(
        Geometry::Triangle(Triangle::new(
            rp(-100_000_000, -1_000_000, -100_000_000),
            rp(100_000_000, -1_000_000, -100_000_000),
            rp(0, -1_000_000, 100_000_000),
        )),
        gray,
    );
    let integrator = PathIntegrator { hwss: true };
    let mut sampler = Sampler::new(vec![], 9);
    for dz in [1_000_000i64, 500_000, 250_000] {
        let ray = Ray::new(rp(0, 0, 0), rv(0, -500_000, dz).normalize());
        let r = integrator.radiance(&scene, ray, hero(500_000_000), &mut sampler);
        assert_eq!(r.l0.raw, 0);
        assert_eq!(r.l1.raw, 0);
        assert_eq!(r.l2.raw, 0);
        assert_eq!(r.l3.raw, 0);
    }
}

#[test]
fn integrator_hero_only_without_hwss() {
    // with hero-wavelength weighting off, only the hero lane is nonzero
    let scene = Scene::dummy();
    let integrator = PathIntegrator { hwss: false };
    let mut sampler = Sampler::new(vec![], 13);
    let ray = Ray::new(rp(0, 0, 0), rv(0, 0, 1_000_000));
    let r = integrator.radiance(&scene, ray, hero(500_000_000), &mut sampler);
    assert_eq!(r.l1.raw, 0);
    assert_eq!(r.l2.raw, 0);
    assert_eq!(r.l3.raw, 0);
}

#[test]
fn swss_estimate_matches_single_wavelength_reference() {
    // with hero-wavelength weighting off, the estimate of a directly
    // seen emitter over a non-reflecting surface is exactly the
    // emitter's radiance at the hero wavelength: the single-wavelength
    // reference value
    let emission: i64 = 2_000_000;
    let mut scene = Scene::empty();
    scene.add_emissive_material(
        Geometry::Sphere(Sphere::new(rp(0, 0, 3_000_000), Fx::one())),
        Bsdf::Lambertian(LambertianBsdf::new(Spectrum::constant(Fx::zero()))),
        Spectrum::constant(Fx::new(emission)),
    );
    let integrator = PathIntegrator { hwss: false };
    let mut sampler = Sampler::new(vec![], 31);
    let ray = Ray::new(rp(0, 0, 0), rv(0, 0, 1_000_000));
    let r = integrator.radiance(&scene, ray, hero(540_000_000), &mut sampler);
    assert_eq!(r.l0.raw, emission);
    assert_eq!(r.l1.raw, 0);
    assert_eq!(r.l2.raw, 0);
    assert_eq!(r.l3.raw, 0);
}

#[test]
fn integrator_sees_first_hit_emission() {
    // looking straight at the emitter, the first-hit emission term alone
    // already makes the estimate nonzero
    let scene = Scene::dummy();
    let integrator = PathIntegrator { hwss: true };
    let mut sampler = Sampler::new(vec![], 21);
    let ray = Ray::new(rp(0, 0, 0), rv(0, 0, 1_000_000));
    let r = integrator.radiance(&scene, ray, hero(500_000_000), &mut sampler);
    assert!(r.l0.raw > 0, "hero radiance: {}", r.l0.raw);
}

#[test]
fn mis_weight_modes() {
    let on = PathIntegrator { hwss: true };
    let off = PathIntegrator { hwss: false };
    let p = PdfSet::splat(Fx::new(500_000));
    let won = on.get_mis_weight(p);
    assert_eq!(won.l0.raw, 250_000);
    assert_eq!(won.l3.raw, 250_000);
    let woff = off.get_mis_weight(p);
    assert_eq!(woff.l0.raw, 1_000_000);
    assert_eq!(woff.l1.raw, 0);
}

#[test]
fn mirror_reflection_shows_emitter() {
    // a perfect mirror floor shows the emitter inverted below the
    // horizon; the gathering integrator weights the reflected emission
    // by the mirror tint once in the path throughput and once in the
    // recursive weighting, so the carried factor is the tint squared
    let emission: i64 = 10_000_000;
    let tint: i64 = 900_000;
    let mut scene = Scene::empty();
    // black-bodied emitter so only the emission term contributes
    scene.add_emissive_material(
        Geometry::Sphere(Sphere::new(rp(0, 4_000_000, 4_000_000), Fx::new(1_000_000))),
        Bsdf::Lambertian(LambertianBsdf::new(Spectrum::constant(Fx::zero()))),
        Spectrum::constant(Fx::new(emission)),
    );
    // mirror floor
    scene.add_material(
        Geometry::Triangle(Triangle::new(
            rp(-100_000_000, -1_000_000, -100_000_000),
            rp(100_000_000, -1_000_000, -100_000_000),
            rp(0, -1_000_000, 100_000_000),
        )),
        Bsdf::Specular(SpecularBsdf::new(Spectrum::constant(Fx::new(tint)))),
    );
    let integrator = HwssModified { hwss: false };
    let w = hero(540_000_000);

    // direct view of the emitter
    let mut s1 = Sampler::new(vec![], 3);
    let direct_ray = Ray::new(rp(0, 0, 0), rp(0, 4_000_000, 4_000_000).sub(rp(0, 0, 0)).normalize());
    let direct = integrator.radiance(&scene, direct_ray, w, &mut s1).l0.raw;
    assert!(direct > 0, "direct view must see the emitter");

    // view via the mirror floor: aim at the floor point whose mirror
    // image of the camera sees the emitter
    let mut s2 = Sampler::new(vec![], 3);
    let floor_point = rp(0, -1_000_000, 888_888);
    let mirror_ray = Ray::new(rp(0, 0, 0), floor_point.sub(rp(0, 0, 0)).normalize());
    let mirrored = integrator.radiance(&scene, mirror_ray, w, &mut s2).l0.raw;
    assert!(mirrored > 0, "mirrored view must see the emitter");

    let expected = direct * tint / 1_000_000 * tint / 1_000_000;
    let err = (mirrored - expected).abs();
    assert!(err * 100 < expected, "mirrored {mirrored} vs expected {expected}");
}

#[test]
fn pixel_buffer_is_running_mean() {
    // the stored state after N samples gives exactly the mean of the N
    // samples
    let mut buf = PixelBuffer::new(2, 2);
    let mk = |v: i64| Xyz::new(Fx::new(v), Fx::new(v), Fx::new(v));
    buf.add_sample(1, mk(1_000_000));
    buf.add_sample(1, mk(2_000_000));
    buf.add_sample(1, mk(4_000_000));
    assert_eq!(buf.counts[1], 3);
    assert_eq!(buf.sums[1].x.raw, 7_000_000);
    let m = buf.mean(1);
    assert_eq!(m.x.raw, 2_333_333);
    // untouched pixels stay empty
    assert_eq!(buf.counts[0], 0);
    assert_eq!(buf.mean(0).x.raw, 0);
}

#[test]
fn fold_tile_merges_covered_pixels_only() {
    let mut shared = PixelBuffer::new(4, 4);
    let mut local = PixelBuffer::new(4, 4);
    let mk = |v: i64| Xyz::new(Fx::new(v), Fx::new(v), Fx::new(v));
    // tile covering the top-left 2x2 window
    let tile = TileData { x: 0, y: 0, width: 2, height: 2, remaining_samples: 4 };
    shared.add_sample(0, mk(1_000_000));
    local.add_sample(0, mk(2_000_000));
    local.add_sample(5, mk(3_000_000));
    // index 6 is outside the tile; local values there must not leak
    local.add_sample(6, mk(9_000_000));
    fold_tile(&mut shared, &local, &tile);
    assert_eq!(shared.sums[0].x.raw, 3_000_000);
    assert_eq!(shared.counts[0], 2);
    assert_eq!(shared.sums[5].x.raw, 3_000_000);
    assert_eq!(shared.counts[5], 1);
    assert_eq!(shared.sums[6].x.raw, 0);
    assert_eq!(shared.counts[6], 0);
    // the budget step keeps the window and reduces the samples
    let next = tile_after_batch(tile, 1).expect("budget remains");
    assert_eq!(next.remaining_samples, 3);
    assert_eq!((next.x, next.y, next.width, next.height), (0, 0, 2, 2));
    assert!(tile_after_batch(next, 3).is_none());
}

#[test]
fn tile_queue_serves_most_remaining_first() {
    let mut q = TileQueue { tiles: Vec::new() };
    let mk = |r: usize| TileData { x: 0, y: 0, width: 8, height: 8, remaining_samples: r };
    q.push(mk(1));
    q.push(mk(5));
    q.push(mk(3));
    assert_eq!(q.pop().unwrap().remaining_samples, 5);
    assert_eq!(q.pop().unwrap().remaining_samples, 3);
    assert_eq!(q.pop().unwrap().remaining_samples, 1);
    assert!(q.pop().is_none());
}

#[test]
fn tile_layout_covers_image() {
    // a 100 x 70 image has 4 x 3 tiles; the last one is the ragged corner
    let t0 = TileData::new(0, 100, 70, 16).expect("first tile");
    assert_eq!((t0.x, t0.y, t0.width, t0.height), (0, 0, 32, 32));
    let t11 = TileData::new(11, 100, 70, 16).expect("last tile");
    assert_eq!((t11.x, t11.y, t11.width, t11.height), (96, 64, 4, 6));
    assert!(TileData::new(12, 100, 70, 16).is_none());
    let q = TileQueue::new(100, 70, 16);
    assert_eq!(q.len(), 12);
}

#[test]
fn empty_scene_renders_black_image() {
    // a floor-only scene without emitters renders to an exactly black
    // image at every pixel
    let mut scene = Scene::empty();
    scene.add_material(
        Geometry::Triangle(Triangle::new(
            rp(-100_000_000, -1_000_000, -100_000_000),
            rp(100_000_000, -1_000_000, -100_000_000),
            rp(0, -1_000_000, 100_000_000),
        )),
        Bsdf::Lambertian(LambertianBsdf::new(Spectrum::constant(Fx::new(800_000)))),
    );
    let camera = Camera::new(rp(0, 0, 0), Fx::one());
    let integrator = PathIntegrator { hwss: true };
    let tables = CieTables::load();
    let mut buffer = PixelBuffer::new(8, 8);
    let tile = TileData::new(0, 8, 8, 2).expect("one tile");
    let mut sampler = Sampler::new(vec![], 17);
    render_tile(&scene, &camera, &integrator, &tables, &tile, 2, &mut sampler, &mut buffer);
    for i in 0..64usize {
        assert_eq!(buffer.sums[i].x.raw, 0);
        assert_eq!(buffer.sums[i].y.raw, 0);
        assert_eq!(buffer.sums[i].z.raw, 0);
        assert_eq!(buffer.counts[i], 2);
    }
    let rgba = buffer_to_rgba(&buffer, &tables);
    assert_eq!(rgba.len(), 64 * 4);
    for px in rgba.chunks(4) {
        assert_eq!(px, &[0, 0, 0, 255]);
    }
}

#[test]
fn emitter_over_floor_lights_center_most() {
    // a small emitter above a diffuse floor: the rendered floor is
    // brighter in the image center column than at the corner columns,
    // and the image is not black
    let mut scene = Scene::empty();
    scene.add_material(
        Geometry::Triangle(Triangle::new(
            rp(-100_000_000, -1_000_000, -100_000_000),
            rp(100_000_000, -1_000_000, -100_000_000),
            rp(0, -1_000_000, 100_000_000),
        )),
        Bsdf::Lambertian(LambertianBsdf::new(Spectrum::constant(Fx::new(800_000)))),
    );
    scene.add_emissive_material(
        Geometry::Sphere(Sphere::new(rp(0, 2_000_000, 0), Fx::new(100_000))),
        Bsdf::Lambertian(LambertianBsdf::new(Spectrum::constant(Fx::new(800_000)))),
        Spectrum::constant(Fx::new(100_000_000)),
    );
    let camera = Camera::new(rp(0, 0, 0), Fx::one());
    let integrator = PathIntegrator { hwss: true };
    let tables = CieTables::load();
    let n: usize = 16;
    let mut buffer = PixelBuffer::new(n, n);
    let tile = TileData::new(0, n, n, 8).expect("one tile");
    let mut sampler = Sampler::new(vec![], 1);
    render_tile(&scene, &camera, &integrator, &tables, &tile, 8, &mut sampler, &mut buffer);
    // luminance per column over the floor half of the image
    let mut col = vec![0i64; n];
    for y in n / 2..n {
        for x in 0..n {
            col[x] += buffer.sums[y * n + x].y.raw;
        }
    }
    let total: i64 = col.iter().sum();
    assert!(total > 0, "the floor must receive light");
    let center = col[n / 2 - 1] + col[n / 2];
    let corner = col[0] + col[n - 1];
    assert!(center >= corner, "center {center} vs corner {corner}");
    // the image encodes as a PNG
    let png = encode_image(&buffer, &tables).expect("encoding must succeed");
    assert_eq!(&png[0..8], &[137, 80, 78, 71, 13, 10, 26, 10]);
}
