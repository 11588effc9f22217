//! The scene: primitives, materials, lights and the ray queries.
//!
//! Primitives carry indices into the material and light arrays; the
//! well-formedness invariant [`Scene::wf`] keeps every index in bounds, so
//! lookups are total. The closest-hit query is pinned to the spec function
//! [`closest_hit`], the exact fold of the per-primitive hit mirrors.

use vstd::prelude::*;
use crate::fixed::{Fx, SCALE, fx_add, fx_sub, fx_div, fx_sqrt};
use crate::math::{Point3, Ray, Vec3, RAY_EPSILON_RAW, point_sub_spec, len_spec, len_squared_spec};
use crate::bsdf::{Bsdf, LambertianBsdf, FresnelBsdf, bsdf_nonneg, lemma_dispersive_ior_nonneg};
use crate::shape::{
    Geometry,
    Sphere,
    Triangle,
    Primitive,
    Intersection,
    geometry_hit_spec,
    hit_record_matches,
};
use crate::spectrum::{
    Spectrum,
    ConstantSpectrum,
    UpsampleTable,
    SpectralSample,
    Wavelength,
    spectrum_nonneg,
};
use crate::types::PrimIndex;
use crate::sampling::Sampler;

verus! {

/// A scene: immutable after construction, shared read-only by workers.
pub struct Scene {
    pub lights: Vec<PrimIndex<Spectrum>>,
    pub materials: Vec<PrimIndex<Bsdf>>,
    pub primitives: Vec<Primitive>,
}

/// The closest positive hit over a sequence of primitives: the index and
/// ray parameter of the strictly nearest hit, earlier primitives winning
/// ties.
pub open spec fn closest_hit(prims: Seq<Primitive>, ray: Ray) -> Option<(int, int)>
    decreases prims.len(),
{
    if prims.len() == 0 {
        None
    } else {
        let i = prims.len() - 1;
        let prev = closest_hit(prims.drop_last(), ray);
        match geometry_hit_spec(prims.last().geom, ray) {
            Some(t) => match prev {
                Some(p) => if t < p.1 {
                    Some((i as int, t))
                } else {
                    Some(p)
                },
                None => Some((i as int, t)),
            },
            None => prev,
        }
    }
}

/// When no closest hit exists, no primitive is hit at all.
#[verifier::rlimit(100)]
#[verifier::spinoff_prover]
pub proof fn lemma_closest_hit_none(prims: Seq<Primitive>, ray: Ray)
    requires
        closest_hit(prims, ray) is None,
    ensures
        forall|j: int|
            0 <= j < prims.len() ==> (#[trigger] geometry_hit_spec(prims[j].geom, ray)) is None,
    decreases prims.len(),
{
    if prims.len() > 0 {
        let prefix = prims.drop_last();
        lemma_closest_hit_none(prefix, ray);
        assert(forall|j: int| 0 <= j < prefix.len() ==> prims[j] == prefix[j]);
        assert(prims.last() == prims[prims.len() - 1]);
    }
}

/// The closest hit is a real hit and no primitive is hit strictly nearer:
/// what [`closest_hit`] returns names a primitive whose mirror produces
/// exactly that ray parameter, and every other primitive's hit parameter
/// is at least as large.
#[verifier::rlimit(100)]
#[verifier::spinoff_prover]
pub proof fn lemma_closest_hit_is_minimal(prims: Seq<Primitive>, ray: Ray)
    requires
        closest_hit(prims, ray) is Some,
    ensures
        ({
            let h = closest_hit(prims, ray)->Some_0;
            &&& 0 <= h.0 < prims.len()
            &&& geometry_hit_spec(prims[h.0].geom, ray) == Some(h.1)
            &&& forall|j: int|
                0 <= j < prims.len() ==> match #[trigger] geometry_hit_spec(prims[j].geom, ray) {
                    Some(tj) => h.1 <= tj,
                    None => true,
                }
        }),
    decreases prims.len(),
{
    let h = closest_hit(prims, ray)->Some_0;
    let prefix = prims.drop_last();
    let prev = closest_hit(prefix, ray);
    assert(forall|j: int| 0 <= j < prefix.len() ==> prims[j] == prefix[j]);
    assert(prims.last() == prims[prims.len() - 1]);
    match prev {
        Some(p) => {
            lemma_closest_hit_is_minimal(prefix, ray);
        },
        None => {
            lemma_closest_hit_none(prefix, ray);
        },
    }
}

impl Primitive {
    /// The BSDF of the primitive, if it has one.
    pub fn get_material<'a>(&self, materials: &'a Vec<PrimIndex<Bsdf>>) -> (r: Option<&'a Bsdf>)
        requires
            self.material_index matches Some(m) ==> m < materials@.len(),
        ensures
            (r is Some) == (self.material_index is Some),
            r matches Some(b) ==> (self.material_index matches Some(m) && *b
                == materials@[m as int].data),
    {
        match self.material_index {
            Some(m) => Some(&materials[m].data),
            None => None,
        }
    }

    /// The emission spectrum of the primitive, if it is a light.
    pub fn get_light<'a>(&self, lights: &'a Vec<PrimIndex<Spectrum>>) -> (r: Option<&'a Spectrum>)
        requires
            self.light_index matches Some(l) ==> l < lights@.len(),
        ensures
            (r is Some) == (self.light_index is Some),
            r matches Some(s) ==> (self.light_index matches Some(l) && *s
                == lights@[l as int].data),
    {
        match self.light_index {
            Some(l) => Some(&lights[l].data),
            None => None,
        }
    }
}

impl Scene {
    /// Every cross-index is in bounds.
    pub open spec fn wf(self) -> bool {
        &&& forall|i: int|
            0 <= i < self.primitives@.len() ==> {
                let p = #[trigger] self.primitives@[i];
                &&& (p.material_index matches Some(m) ==> m < self.materials@.len())
                &&& (p.light_index matches Some(l) ==> l < self.lights@.len())
            }
        &&& forall|i: int|
            0 <= i < self.lights@.len() ==> (#[trigger] self.lights@[i]).prim_index
                < self.primitives@.len()
    }

    /// Every material and every light spectrum is physically admissible
    /// (nonnegative), so radiance estimates stay nonnegative.
    pub open spec fn spectra_nonneg(self) -> bool {
        &&& forall|i: int|
            0 <= i < self.materials@.len() ==> bsdf_nonneg(#[trigger] self.materials@[i].data)
        &&& forall|i: int|
            0 <= i < self.lights@.len() ==> spectrum_nonneg(#[trigger] self.lights@[i].data)
    }

    /// An empty scene.
    pub fn empty() -> (r: Scene)
        ensures
            r.wf(),
            r.lights@.len() == 0,
            r.materials@.len() == 0,
            r.primitives@.len() == 0,
            r.spectra_nonneg(),
    {
        Scene { lights: Vec::new(), materials: Vec::new(), primitives: Vec::new() }
    }

    /// Adds a pure emitter.
    pub fn add_light(&mut self, geom: Geometry, light: Spectrum)
        requires
            old(self).wf(),
        ensures
            final(self).wf(),
            final(self).primitives@.len() == old(self).primitives@.len() + 1,
            final(self).lights@.len() == old(self).lights@.len() + 1,
            final(self).materials@ == old(self).materials@,
            final(self).primitives@.last().geom == geom,
            final(self).primitives@.last().material_index is None,
            final(self).primitives@.last().light_index == Some(old(self).lights@.len() as usize),
            final(self).lights@.last().data == light,
            final(self).lights@.last().prim_index == old(self).primitives@.len(),
            forall|j: int|
                0 <= j < old(self).primitives@.len() ==> final(self).primitives@[j] == old(
                    self,
                ).primitives@[j],
            forall|j: int|
                0 <= j < old(self).lights@.len() ==> final(self).lights@[j] == old(
                    self,
                ).lights@[j],
            old(self).spectra_nonneg() && spectrum_nonneg(light) ==> final(self).spectra_nonneg(),
    {
        let light_index: usize = self.lights.len();
        let prim_index: usize = self.primitives.len();
        self.lights.push(PrimIndex { data: light, prim_index });
        self.primitives.push(Primitive::new_light(geom, light_index));
    }

    /// Adds a non-emitting surface.
    pub fn add_material(&mut self, geom: Geometry, material: Bsdf)
        requires
            old(self).wf(),
        ensures
            final(self).wf(),
            final(self).primitives@.len() == old(self).primitives@.len() + 1,
            final(self).lights@ == old(self).lights@,
            final(self).materials@.len() == old(self).materials@.len() + 1,
            final(self).primitives@.last().geom == geom,
            final(self).primitives@.last().material_index == Some(
                old(self).materials@.len() as usize,
            ),
            final(self).primitives@.last().light_index is None,
            final(self).materials@.last().data == material,
            final(self).materials@.last().prim_index == old(self).primitives@.len(),
            forall|j: int|
                0 <= j < old(self).primitives@.len() ==> final(self).primitives@[j] == old(
                    self,
                ).primitives@[j],
            forall|j: int|
                0 <= j < old(self).materials@.len() ==> final(self).materials@[j] == old(
                    self,
                ).materials@[j],
            old(self).spectra_nonneg() && bsdf_nonneg(material) ==> final(self).spectra_nonneg(),
    {
        let material_index: usize = self.materials.len();
        let prim_index: usize = self.primitives.len();
        self.materials.push(PrimIndex { data: material, prim_index });
        self.primitives.push(Primitive::new_material(geom, material_index));
    }

    /// Adds an emitting surface.
    pub fn add_emissive_material(&mut self, geom: Geometry, material: Bsdf, light: Spectrum)
        requires
            old(self).wf(),
        ensures
            final(self).wf(),
            final(self).primitives@.len() == old(self).primitives@.len() + 1,
            final(self).lights@.len() == old(self).lights@.len() + 1,
            final(self).materials@.len() == old(self).materials@.len() + 1,
            final(self).primitives@.last().geom == geom,
            final(self).primitives@.last().material_index == Some(
                old(self).materials@.len() as usize,
            ),
            final(self).primitives@.last().light_index == Some(old(self).lights@.len() as usize),
            final(self).lights@.last().data == light,
            final(self).lights@.last().prim_index == old(self).primitives@.len(),
            final(self).materials@.last().data == material,
            final(self).materials@.last().prim_index == old(self).primitives@.len(),
            forall|j: int|
                0 <= j < old(self).primitives@.len() ==> final(self).primitives@[j] == old(
                    self,
                ).primitives@[j],
            forall|j: int|
                0 <= j < old(self).materials@.len() ==> final(self).materials@[j] == old(
                    self,
                ).materials@[j],
            forall|j: int|
                0 <= j < old(self).lights@.len() ==> final(self).lights@[j] == old(
                    self,
                ).lights@[j],
            old(self).spectra_nonneg() && bsdf_nonneg(material) && spectrum_nonneg(light)
                ==> final(self).spectra_nonneg(),
    {
        let material_index: usize = self.materials.len();
        let light_index: usize = self.lights.len();
        let prim_index: usize = self.primitives.len();
        self.materials.push(PrimIndex { data: material, prim_index });
        self.lights.push(PrimIndex { data: light, prim_index });
        self.primitives.push(
            Primitive::new_emissive_material(geom, material_index, light_index),
        );
    }

    /// The (zero) radiance of rays that leave the scene.
    pub fn background_emission(&self, _ray: &Ray, _wavelength: Wavelength) -> (r: SpectralSample)
        ensures
            r.l0@ == 0 && r.l1@ == 0 && r.l2@ == 0 && r.l3@ == 0,
    {
        SpectralSample::splat(Fx::zero())
    }

    /// The closest positive hit along a ray, as the primitive's index, the
    /// intersection record and the ray parameter; pinned to
    /// [`closest_hit`].
    pub fn intersection(&self, ray: &Ray) -> (r: Option<(usize, Intersection, Fx)>)
        ensures
            (r is Some) == (closest_hit(self.primitives@, *ray) is Some),
            r matches Some(h) ==> {
                &&& closest_hit(self.primitives@, *ray) == Some((h.0 as int, h.2@))
                &&& h.0 < self.primitives@.len()
                &&& geometry_hit_spec(self.primitives@[h.0 as int].geom, *ray) == Some(h.2@)
                &&& hit_record_matches(self.primitives@[h.0 as int].geom, *ray, h.1, h.2@)
            },
    {
        let mut best: Option<(usize, Intersection, Fx)> = None;
        let mut i: usize = 0;
        while i < self.primitives.len()
            invariant
                i <= self.primitives@.len(),
                (best is Some) == (closest_hit(self.primitives@.subrange(0, i as int), *ray)
                    is Some),
                best matches Some(h) ==> {
                    &&& closest_hit(self.primitives@.subrange(0, i as int), *ray) == Some(
                        (h.0 as int, h.2@),
                    )
                    &&& h.0 < i
                    &&& geometry_hit_spec(self.primitives@[h.0 as int].geom, *ray) == Some(h.2@)
                    &&& hit_record_matches(self.primitives@[h.0 as int].geom, *ray, h.1, h.2@)
                },
            decreases self.primitives@.len() - i,
        {
            let prim = &self.primitives[i];
            let this_hit = prim.intersect(ray);
            match this_hit {
                Some((hit, t)) => {
                    let replace = match &best {
                        Some(b) => t.raw < b.2.raw,
                        None => true,
                    };
                    if replace {
                        best = Some((i, hit, t));
                    }
                },
                None => {},
            }
            proof {
                let full = self.primitives@.subrange(0, (i + 1) as int);
                assert(full.drop_last() =~= self.primitives@.subrange(0, i as int));
                assert(full.last() == self.primitives@[i as int]);
            }
            i = i + 1;
        }
        proof {
            assert(self.primitives@.subrange(0, self.primitives@.len() as int)
                =~= self.primitives@);
        }
        best
    }

    /// Whether a shadow ray reaches a target point: nothing in the scene
    /// stands closer along the ray than the point (within the ray offset
    /// tolerance).
    pub fn ray_hits_point(&self, ray: &Ray, pos: Point3) -> (r: bool)
        ensures
            r == ({
                let target = fx_sub(
                    fx_div(
                        fx_sqrt(len_squared_spec(point_sub_spec(pos, ray.o))),
                        len_spec(ray.d),
                    ),
                    RAY_EPSILON_RAW as int,
                );
                match closest_hit(self.primitives@, *ray) {
                    Some(h) => h.1 > target,
                    None => true,
                }
            }),
    {
        let target = pos.distance(ray.o).div(ray.d.len()).sub(Fx::new(RAY_EPSILON_RAW));
        match self.intersection(ray) {
            Some((_, _, t)) => target.lt(t),
            None => true,
        }
    }

    /// Whether the closest hit along a ray is the given primitive.
    pub fn ray_hits_object(&self, ray: &Ray, light_prim_index: usize) -> (r: bool)
        ensures
            r == (closest_hit(self.primitives@, *ray) matches Some(h) && h.0
                == light_prim_index as int),
    {
        match self.intersection(ray) {
            Some((i, _, _)) => i == light_prim_index,
            None => false,
        }
    }

    /// Picks one light uniformly, returning its index in the light array
    /// and the reciprocal of the pick probability (the light count), by
    /// which a one-light estimate is scaled to stay unbiased.
    pub fn pick_one_light(&self, sampler: &mut Sampler) -> (r: (usize, Fx))
        requires
            old(sampler).wf(),
            self.lights@.len() > 0,
            self.lights@.len() <= 1_000_000,
        ensures
            final(sampler).wf(),
            r.0 < self.lights@.len(),
            r.1@ == self.lights@.len() * SCALE,
    {
        let idx = sampler.gen_array_index(self.lights.len());
        let n = Fx::new((self.lights.len() as i64) * SCALE);
        (idx, n)
    }
}

/// Whether a primitive's geometry is the sphere with the given center and
/// radius, in raw coordinates.
pub open spec fn prim_is_sphere(p: Primitive, cx: int, cy: int, cz: int, rad: int) -> bool {
    p.geom matches Geometry::Sphere(s) && s.center.x@ == cx && s.center.y@ == cy && s.center.z@
        == cz && s.radius@ == rad
}

/// Whether a primitive's geometry is a triangle with the given vertices,
/// in raw coordinates.
pub open spec fn prim_is_triangle(
    p: Primitive,
    ax: int,
    ay: int,
    az: int,
    bx: int,
    by: int,
    bz: int,
    cx: int,
    cy: int,
    cz: int,
) -> bool {
    p.geom matches Geometry::Triangle(t) && t.v1.x@ == ax && t.v1.y@ == ay && t.v1.z@ == az
        && t.v2.x@ == bx && t.v2.y@ == by && t.v2.z@ == bz && t.v3.x@ == cx && t.v3.y@ == cy
        && t.v3.z@ == cz
}

/// Whether a material is a Lambertian over a constant spectrum of the
/// given raw reflectance.
pub open spec fn mat_is_lambert_constant(m: Bsdf, v: int) -> bool {
    m matches Bsdf::Lambertian(l) && l.albedo matches Spectrum::Constant(c) && c.value@ == v
}

/// Whether a spectrum is the upsampled fit of the given raw RGB triple
/// with unit scale.
pub open spec fn spectrum_is_upsampled_rgb(s: Spectrum, red: int, green: int, blue: int) -> bool {
    let cs = crate::spectrum::upsample_coeffs_spec(
        crate::spectrum::inv_sigmoid_spec(blue),
        crate::spectrum::inv_sigmoid_spec(green),
        crate::spectrum::inv_sigmoid_spec(red),
    );
    s matches Spectrum::Upsampled(u) && u.c0@ == cs.0 && u.c1@ == cs.1 && u.c2@ == cs.2 && u.scale@
        == SCALE as int
}

/// Whether a material is a Lambertian over the upsampled fit of the given
/// raw RGB triple.
pub open spec fn mat_is_lambert_rgb(m: Bsdf, red: int, green: int, blue: int) -> bool {
    m matches Bsdf::Lambertian(l) && spectrum_is_upsampled_rgb(l.albedo, red, green, blue)
}

/// Whether a material is a dielectric with upsampled reflectance and
/// transmittance tints and the given raw index and dispersion.
pub open spec fn mat_is_glass_rgb(
    m: Bsdf,
    rr: int,
    rg: int,
    rb: int,
    tr: int,
    tg: int,
    tb: int,
    ior: int,
    disp: int,
) -> bool {
    m matches Bsdf::Fresnel(f) && spectrum_is_upsampled_rgb(f.reflected_color, rr, rg, rb)
        && spectrum_is_upsampled_rgb(f.transmitted_color, tr, tg, tb) && f.ior@ == ior
        && f.dispersion@ == disp
}

/// Whether a light spectrum is the constant of the given raw radiance.
pub open spec fn light_is_constant(s: Spectrum, v: int) -> bool {
    s matches Spectrum::Constant(c) && c.value@ == v
}

/// Builds a point from raw coordinates (millionths).
fn pt(x: i64, y: i64, z: i64) -> (r: Point3)
    ensures
        r.x@ == x as int && r.y@ == y as int && r.z@ == z as int,
{
    Point3::new(Fx::new(x), Fx::new(y), Fx::new(z))
}

impl Scene {
    /// A dispersion test stage: a gray floor, a point-like emitter boxed
    /// in behind a narrow slit, and a triangular glass prism that splits
    /// the escaping beam into a spectrum.
    #[verifier::rlimit(100)]
    #[verifier::spinoff_prover]
    pub fn dispersion() -> (r: Scene)
        ensures
            r.wf(),
            r.spectra_nonneg(),
            r.lights@.len() == 1,
            r.primitives@.len() == 35,
            r.materials@.len() == 35,
            r.lights@[0].data == Spectrum::Constant(
                ConstantSpectrum { value: Fx { raw: 100_000_000_000 } },
            ),
            prim_is_triangle(
                r.primitives@[0],
                -100_000_000,
                -1_100_000,
                -100_000_000,
                100_000_000,
                -1_100_000,
                -100_000_000,
                100_000_000,
                -1_100_000,
                100_000_000,
            ),
            prim_is_triangle(
                r.primitives@[1],
                -100_000_000,
                -1_100_000,
                -100_000_000,
                100_000_000,
                -1_100_000,
                100_000_000,
                -100_000_000,
                -1_100_000,
                100_000_000,
            ),
            mat_is_lambert_rgb(r.materials@[0].data, 800_000, 800_000, 800_000),
            mat_is_lambert_rgb(r.materials@[1].data, 800_000, 800_000, 800_000),
            prim_is_sphere(r.primitives@[2], -1_500_000, -750_000, 2_000_000, 100_000),
            r.lights@[0].prim_index == 2,
            forall|k: int|
                3 <= k < 27 ==> mat_is_lambert_rgb(
                    (#[trigger] r.materials@[k]).data,
                    800_000,
                    800_000,
                    800_000,
                ),
            forall|k: int|
                27 <= k < 35 ==> mat_is_glass_rgb(
                    (#[trigger] r.materials@[k]).data,
                    800_000,
                    800_000,
                    800_000,
                    800_000,
                    800_000,
                    800_000,
                    1_550_000,
                    100_000,
                ),
    {
        let mut scene = Scene::empty();
        let table = UpsampleTable::load();
        let gray = Spectrum::Upsampled(
            table.get_spectrum(Fx::new(800_000), Fx::new(800_000), Fx::new(800_000)),
        );
        let gray_bsdf = Bsdf::Lambertian(LambertianBsdf::new(gray));

        // floor
        let fs: i64 = 100_000_000;
        let fc1 = pt(-fs, -1_100_000, -fs);
        let fc2 = pt(-fs, -1_100_000, fs);
        let fc3 = pt(fs, -1_100_000, -fs);
        let fc4 = pt(fs, -1_100_000, fs);
        scene.add_material(Geometry::Triangle(Triangle::new(fc1, fc3, fc4)), gray_bsdf);
        scene.add_material(Geometry::Triangle(Triangle::new(fc1, fc4, fc2)), gray_bsdf);

        // light ball
        let light_pos = pt(-1_500_000, -750_000, 2_000_000);
        scene.add_emissive_material(
            Geometry::Sphere(Sphere::new(light_pos, Fx::new(100_000))),
            gray_bsdf,
            Spectrum::constant(Fx::new(100_000_000_000)),
        );

        // walls with a tiny opening between them
        let left_center = pt(-1_000_000, -750_000, -8_000_000);
        let right_center = pt(-1_000_000, -750_000, 12_000_000);
        let wall_size = Vec3::new(Fx::new(100_000), Fx::new(1_000_000), Fx::new(9_990_000));
        let verts_left = Scene::get_vertices_closed_box(left_center, wall_size);
        let mut i: usize = 0;
        while i + 3 <= verts_left.len()
            invariant
                scene.wf(),
                scene.spectra_nonneg(),
                verts_left@.len() == 36,
                i <= 36,
                scene.lights@.len() == 1,
                3 * (scene.primitives@.len() - 3) == i,
                scene.materials@.len() == scene.primitives@.len(),
                scene.lights@[0].data == Spectrum::Constant(
                    ConstantSpectrum { value: Fx { raw: 100_000_000_000 } },
                ),
                scene.lights@[0].prim_index == 2,
                spectrum_is_upsampled_rgb(gray, 800_000, 800_000, 800_000),
                gray_bsdf matches Bsdf::Lambertian(l) && l.albedo == gray,
                mat_is_lambert_rgb(scene.materials@[0].data, 800_000, 800_000, 800_000),
                mat_is_lambert_rgb(scene.materials@[1].data, 800_000, 800_000, 800_000),
                prim_is_triangle(
                    scene.primitives@[0],
                    -100_000_000,
                    -1_100_000,
                    -100_000_000,
                    100_000_000,
                    -1_100_000,
                    -100_000_000,
                    100_000_000,
                    -1_100_000,
                    100_000_000,
                ),
                prim_is_triangle(
                    scene.primitives@[1],
                    -100_000_000,
                    -1_100_000,
                    -100_000_000,
                    100_000_000,
                    -1_100_000,
                    100_000_000,
                    -100_000_000,
                    -1_100_000,
                    100_000_000,
                ),
                prim_is_sphere(scene.primitives@[2], -1_500_000, -750_000, 2_000_000, 100_000),
                forall|k: int|
                    3 <= k < scene.materials@.len() ==> mat_is_lambert_rgb(
                        (#[trigger] scene.materials@[k]).data,
                        800_000,
                        800_000,
                        800_000,
                    ),
            decreases verts_left@.len() - i,
        {
            scene.add_material(
                Geometry::Triangle(
                    Triangle::new(verts_left[i], verts_left[i + 1], verts_left[i + 2]),
                ),
                gray_bsdf,
            );
            i = i + 3;
        }
        let verts_right = Scene::get_vertices_closed_box(right_center, wall_size);
        let mut i: usize = 0;
        while i + 3 <= verts_right.len()
            invariant
                scene.wf(),
                scene.spectra_nonneg(),
                verts_right@.len() == 36,
                i <= 36,
                scene.lights@.len() == 1,
                3 * (scene.primitives@.len() - 15) == i,
                scene.materials@.len() == scene.primitives@.len(),
                scene.lights@[0].data == Spectrum::Constant(
                    ConstantSpectrum { value: Fx { raw: 100_000_000_000 } },
                ),
                scene.lights@[0].prim_index == 2,
                spectrum_is_upsampled_rgb(gray, 800_000, 800_000, 800_000),
                gray_bsdf matches Bsdf::Lambertian(l) && l.albedo == gray,
                mat_is_lambert_rgb(scene.materials@[0].data, 800_000, 800_000, 800_000),
                mat_is_lambert_rgb(scene.materials@[1].data, 800_000, 800_000, 800_000),
                prim_is_triangle(
                    scene.primitives@[0],
                    -100_000_000,
                    -1_100_000,
                    -100_000_000,
                    100_000_000,
                    -1_100_000,
                    -100_000_000,
                    100_000_000,
                    -1_100_000,
                    100_000_000,
                ),
                prim_is_triangle(
                    scene.primitives@[1],
                    -100_000_000,
                    -1_100_000,
                    -100_000_000,
                    100_000_000,
                    -1_100_000,
                    100_000_000,
                    -100_000_000,
                    -1_100_000,
                    100_000_000,
                ),
                prim_is_sphere(scene.primitives@[2], -1_500_000, -750_000, 2_000_000, 100_000),
                forall|k: int|
                    3 <= k < scene.materials@.len() ==> mat_is_lambert_rgb(
                        (#[trigger] scene.materials@[k]).data,
                        800_000,
                        800_000,
                        800_000,
                    ),
            decreases verts_right@.len() - i,
        {
            scene.add_material(
                Geometry::Triangle(
                    Triangle::new(verts_right[i], verts_right[i + 1], verts_right[i + 2]),
                ),
                gray_bsdf,
            );
            i = i + 3;
        }

        // triangular prism
        let p1 = pt(0, -1_000_000, 2_050_000);
        let p2 = pt(0, -500_000, 2_050_000);
        let p3 = pt(600_000, -1_000_000, 1_600_000);
        let p4 = pt(600_000, -500_000, 1_600_000);
        let p5 = pt(300_000, -1_000_000, 2_300_000);
        let p6 = pt(300_000, -500_000, 2_300_000);
        let verts_prism: Vec<Point3> = vec![
            p2, p4, p6,
            p1, p5, p3,
            p1, p3, p4,
            p1, p4, p2,
            p3, p5, p6,
            p3, p6, p4,
            p5, p1, p2,
            p5, p2, p6,
        ];
        let glass = Bsdf::Fresnel(
            FresnelBsdf::new(gray, gray, Fx::new(1_550_000), Fx::new(100_000)),
        );
        proof {
            lemma_dispersive_ior_nonneg(glass->Fresnel_0);
        }
        let mut i: usize = 0;
        while i + 3 <= verts_prism.len()
            invariant
                scene.wf(),
                scene.spectra_nonneg(),
                verts_prism@.len() == 24,
                i <= 24,
                scene.lights@.len() == 1,
                3 * (scene.primitives@.len() - 27) == i,
                scene.materials@.len() == scene.primitives@.len(),
                scene.lights@[0].data == Spectrum::Constant(
                    ConstantSpectrum { value: Fx { raw: 100_000_000_000 } },
                ),
                scene.lights@[0].prim_index == 2,
                spectrum_is_upsampled_rgb(gray, 800_000, 800_000, 800_000),
                glass matches Bsdf::Fresnel(f) && spectrum_is_upsampled_rgb(
                    f.reflected_color,
                    800_000,
                    800_000,
                    800_000,
                ) && spectrum_is_upsampled_rgb(f.transmitted_color, 800_000, 800_000, 800_000)
                    && f.ior@ == 1_550_000 && f.dispersion@ == 100_000,
                crate::bsdf::bsdf_nonneg(glass),
                mat_is_lambert_rgb(scene.materials@[0].data, 800_000, 800_000, 800_000),
                mat_is_lambert_rgb(scene.materials@[1].data, 800_000, 800_000, 800_000),
                prim_is_triangle(
                    scene.primitives@[0],
                    -100_000_000,
                    -1_100_000,
                    -100_000_000,
                    100_000_000,
                    -1_100_000,
                    -100_000_000,
                    100_000_000,
                    -1_100_000,
                    100_000_000,
                ),
                prim_is_triangle(
                    scene.primitives@[1],
                    -100_000_000,
                    -1_100_000,
                    -100_000_000,
                    100_000_000,
                    -1_100_000,
                    100_000_000,
                    -100_000_000,
                    -1_100_000,
                    100_000_000,
                ),
                prim_is_sphere(scene.primitives@[2], -1_500_000, -750_000, 2_000_000, 100_000),
                forall|k: int|
                    3 <= k < 27 ==> mat_is_lambert_rgb(
                        (#[trigger] scene.materials@[k]).data,
                        800_000,
                        800_000,
                        800_000,
                    ),
                forall|k: int|
                    27 <= k < scene.materials@.len() ==> mat_is_glass_rgb(
                        (#[trigger] scene.materials@[k]).data,
                        800_000,
                        800_000,
                        800_000,
                        800_000,
                        800_000,
                        800_000,
                        1_550_000,
                        100_000,
                    ),
            decreases verts_prism@.len() - i,
        {
            scene.add_material(
                Geometry::Triangle(
                    Triangle::new(verts_prism[i], verts_prism[i + 1], verts_prism[i + 2]),
                ),
                glass,
            );
            i = i + 3;
        }
        scene
    }

    /// A closed box scene whose emitter sits inside a smaller open box, so
    /// most light reaches the walls indirectly.
    #[verifier::rlimit(100)]
    #[verifier::spinoff_prover]
    pub fn boxed_light() -> (r: Scene)
        ensures
            r.wf(),
            r.spectra_nonneg(),
            r.lights@.len() == 1,
            r.primitives@.len() == 23,
            r.materials@.len() == 23,
            forall|k: int|
                0 <= k < 20 ==> mat_is_lambert_rgb(
                    (#[trigger] r.materials@[k]).data,
                    800_000,
                    800_000,
                    800_000,
                ),
            prim_is_sphere(r.primitives@[20], 0, 500_000, 1_000_000, 100_000),
            light_is_constant(r.lights@[0].data, 150_000_000),
            r.lights@[0].prim_index == 20,
            prim_is_sphere(r.primitives@[21], -300_000, -850_000, 1_500_000, 300_000),
            mat_is_lambert_rgb(r.materials@[21].data, 1_000_000, 400_000, 0),
            prim_is_sphere(r.primitives@[22], 500_000, -300_000, 1_200_000, 200_000),
            mat_is_lambert_rgb(r.materials@[22].data, 0, 100_000, 1_000_000),
    {
        let mut scene = Scene::empty();
        let table = UpsampleTable::load();
        let orange = Spectrum::Upsampled(
            table.get_spectrum(Fx::one(), Fx::new(400_000), Fx::zero()),
        );
        let blue = Spectrum::Upsampled(table.get_spectrum(Fx::zero(), Fx::new(100_000), Fx::one()));
        let gray = Spectrum::Upsampled(
            table.get_spectrum(Fx::new(800_000), Fx::new(800_000), Fx::new(800_000)),
        );
        let gray_bsdf = Bsdf::Lambertian(LambertianBsdf::new(gray));

        let vertices = Scene::get_vertices_cornell_box();
        let mut i: usize = 0;
        while i + 3 <= vertices.len()
            invariant
                scene.wf(),
                scene.spectra_nonneg(),
                vertices@.len() == 30,
                i <= 30,
                scene.lights@.len() == 0,
                3 * scene.primitives@.len() == i,
                scene.materials@.len() == scene.primitives@.len(),
                spectrum_is_upsampled_rgb(gray, 800_000, 800_000, 800_000),
                gray_bsdf matches Bsdf::Lambertian(l) && l.albedo == gray,
                forall|k: int|
                    0 <= k < scene.materials@.len() ==> mat_is_lambert_rgb(
                        (#[trigger] scene.materials@[k]).data,
                        800_000,
                        800_000,
                        800_000,
                    ),
            decreases vertices@.len() - i,
        {
            scene.add_material(
                Geometry::Triangle(Triangle::new(vertices[i], vertices[i + 1], vertices[i + 2])),
                gray_bsdf,
            );
            i = i + 3;
        }

        // a smaller box around the light, open toward the ceiling
        let bs: i64 = 150_000;
        let bf: i64 = 225_000;  // top corners flare out by a factor 1.5
        let cx: i64 = 0;
        let cy: i64 = 500_000;
        let cz: i64 = 1_000_000;
        let bfl = pt(cx - bs, cy - bs, cz - bs);
        let bfr = pt(cx + bs, cy - bs, cz - bs);
        let bbl = pt(cx - bs, cy - bs, cz + bs);
        let bbr = pt(cx + bs, cy - bs, cz + bs);
        let tfl = pt(cx - bf, cy + bs, cz - bf);
        let tfr = pt(cx + bf, cy + bs, cz - bf);
        let tbl = pt(cx - bf, cy + bs, cz + bf);
        let tbr = pt(cx + bf, cy + bs, cz + bf);
        let box_vertices: Vec<Point3> = vec![
            bfl, bbl, bbr, bfl, bbr, bfr,
            bfl, bfr, tfr, bfl, tfr, tfl,
            bbr, bbl, tbr, bbl, tbl, tbr,
            bbl, bfl, tfl, bbl, tfl, tbl,
            bfr, bbr, tfr, bbr, tbr, tfr,
        ];
        let mut j: usize = 0;
        while j + 3 <= box_vertices.len()
            invariant
                scene.wf(),
                scene.spectra_nonneg(),
                box_vertices@.len() == 30,
                j <= 30,
                scene.lights@.len() == 0,
                3 * (scene.primitives@.len() - 10) == j,
                scene.materials@.len() == scene.primitives@.len(),
                spectrum_is_upsampled_rgb(gray, 800_000, 800_000, 800_000),
                gray_bsdf matches Bsdf::Lambertian(l) && l.albedo == gray,
                forall|k: int|
                    0 <= k < scene.materials@.len() ==> mat_is_lambert_rgb(
                        (#[trigger] scene.materials@[k]).data,
                        800_000,
                        800_000,
                        800_000,
                    ),
            decreases box_vertices@.len() - j,
        {
            scene.add_material(
                Geometry::Triangle(
                    Triangle::new(box_vertices[j], box_vertices[j + 1], box_vertices[j + 2]),
                ),
                gray_bsdf,
            );
            j = j + 3;
        }

        // the light inside the box
        scene.add_emissive_material(
            Geometry::Sphere(Sphere::new(pt(cx, cy, cz), Fx::new(100_000))),
            gray_bsdf,
            Spectrum::constant(Fx::new(150_000_000)),
        );

        // two colored spheres
        scene.add_material(
            Geometry::Sphere(Sphere::new(pt(-300_000, -850_000, 1_500_000), Fx::new(300_000))),
            Bsdf::Lambertian(LambertianBsdf::new(orange)),
        );
        scene.add_material(
            Geometry::Sphere(Sphere::new(pt(500_000, -300_000, 1_200_000), Fx::new(200_000))),
            Bsdf::Lambertian(LambertianBsdf::new(blue)),
        );
        scene
    }

    /// Glass spheres over a huge floor sphere under two emitters.
    #[verifier::rlimit(100)]
    #[verifier::spinoff_prover]
    pub fn glass_on_field() -> (r: Scene)
        ensures
            r.wf(),
            r.spectra_nonneg(),
            r.lights@.len() == 2,
            r.primitives@.len() == 6,
            r.materials@.len() == 6,
            prim_is_sphere(r.primitives@[0], 0, -101_000_000, 1_000_000, 100_000_000),
            mat_is_lambert_rgb(r.materials@[0].data, 800_000, 800_000, 800_000),
            r.primitives@[0].light_index is None,
            prim_is_sphere(r.primitives@[1], -500_000, 1_000_000, 2_000_000, 250_000),
            light_is_constant(r.lights@[0].data, 50_000_000),
            r.lights@[0].prim_index == 1,
            prim_is_sphere(r.primitives@[2], 5_000_000, 0, 7_000_000, 1_000_000),
            light_is_constant(r.lights@[1].data, 50_000_000),
            r.lights@[1].prim_index == 2,
            prim_is_sphere(r.primitives@[3], 500_000, 0, 3_000_000, 500_000),
            mat_is_glass_rgb(
                r.materials@[3].data,
                800_000,
                800_000,
                800_000,
                800_000,
                800_000,
                800_000,
                1_550_000,
                100_000,
            ),
            prim_is_sphere(r.primitives@[4], -500_000, -500_000, 3_500_000, 250_000),
            mat_is_glass_rgb(
                r.materials@[4].data,
                800_000,
                800_000,
                800_000,
                0,
                100_000,
                1_000_000,
                1_550_000,
                100_000,
            ),
            prim_is_sphere(r.primitives@[5], 3_500_000, 0, 6_000_000, 500_000),
            mat_is_glass_rgb(
                r.materials@[5].data,
                1_000_000,
                400_000,
                0,
                800_000,
                800_000,
                800_000,
                1_550_000,
                100_000,
            ),
    {
        let mut scene = Scene::empty();
        let table = UpsampleTable::load();
        let orange = Spectrum::Upsampled(
            table.get_spectrum(Fx::one(), Fx::new(400_000), Fx::zero()),
        );
        let blue = Spectrum::Upsampled(table.get_spectrum(Fx::zero(), Fx::new(100_000), Fx::one()));
        let gray = Spectrum::Upsampled(
            table.get_spectrum(Fx::new(800_000), Fx::new(800_000), Fx::new(800_000)),
        );
        let gray_bsdf = Bsdf::Lambertian(LambertianBsdf::new(gray));

        // floor
        scene.add_material(
            Geometry::Sphere(Sphere::new(pt(0, -101_000_000, 1_000_000), Fx::new(100_000_000))),
            gray_bsdf,
        );

        // emissive spheres
        scene.add_emissive_material(
            Geometry::Sphere(Sphere::new(pt(-500_000, 1_000_000, 2_000_000), Fx::new(250_000))),
            gray_bsdf,
            Spectrum::constant(Fx::new(50_000_000)),
        );
        scene.add_emissive_material(
            Geometry::Sphere(Sphere::new(pt(5_000_000, 0, 7_000_000), Fx::new(1_000_000))),
            gray_bsdf,
            Spectrum::constant(Fx::new(50_000_000)),
        );

        // glass spheres
        let ior = Fx::new(1_550_000);
        let disp = Fx::new(100_000);
        scene.add_material(
            Geometry::Sphere(Sphere::new(pt(500_000, 0, 3_000_000), Fx::new(500_000))),
            Bsdf::Fresnel(FresnelBsdf::new(gray, gray, ior, disp)),
        );
        scene.add_material(
            Geometry::Sphere(Sphere::new(pt(-500_000, -500_000, 3_500_000), Fx::new(250_000))),
            Bsdf::Fresnel(FresnelBsdf::new(gray, blue, ior, disp)),
        );
        scene.add_material(
            Geometry::Sphere(Sphere::new(pt(3_500_000, 0, 6_000_000), Fx::new(500_000))),
            Bsdf::Fresnel(FresnelBsdf::new(orange, gray, ior, disp)),
        );
        scene
    }

    /// The classic box: orange left wall, blue right wall, gray floor,
    /// ceiling and back, a ceiling sphere emitter and a gray sphere.
    #[verifier::rlimit(100)]
    #[verifier::spinoff_prover]
    pub fn cornell_box() -> (r: Scene)
        ensures
            r.wf(),
            r.spectra_nonneg(),
            r.lights@.len() == 1,
            r.primitives@.len() == 12,
            r.materials@.len() == 12,
            r.lights@[0].data == Spectrum::Constant(
                ConstantSpectrum { value: Fx { raw: 70_000_000 } },
            ),
            forall|k: int|
                0 <= k < 10 ==> (if k < 2 {
                    mat_is_lambert_rgb(#[trigger] r.materials@[k].data, 1_000_000, 400_000, 0)
                } else if k < 4 {
                    mat_is_lambert_rgb(r.materials@[k].data, 0, 100_000, 1_000_000)
                } else {
                    mat_is_lambert_rgb(r.materials@[k].data, 800_000, 800_000, 800_000)
                }),
            prim_is_sphere(r.primitives@[10], 0, 850_000, 1_000_000, 100_000),
            mat_is_lambert_rgb(r.materials@[10].data, 800_000, 800_000, 800_000),
            r.lights@[0].prim_index == 10,
            prim_is_sphere(r.primitives@[11], 400_000, 0, 1_000_000, 250_000),
            mat_is_lambert_rgb(r.materials@[11].data, 800_000, 800_000, 800_000),
            r.primitives@[11].light_index is None,
    {
        let mut scene = Scene::empty();
        let table = UpsampleTable::load();
        let orange = Spectrum::Upsampled(
            table.get_spectrum(Fx::one(), Fx::new(400_000), Fx::zero()),
        );
        let blue = Spectrum::Upsampled(table.get_spectrum(Fx::zero(), Fx::new(100_000), Fx::one()));
        let gray = Spectrum::Upsampled(
            table.get_spectrum(Fx::new(800_000), Fx::new(800_000), Fx::new(800_000)),
        );
        let gray_bsdf = Bsdf::Lambertian(LambertianBsdf::new(gray));

        let vertices = Scene::get_vertices_cornell_box();
        let mut i: usize = 0;
        while i + 3 <= vertices.len()
            invariant
                scene.wf(),
                scene.spectra_nonneg(),
                vertices@.len() == 30,
                i <= 30,
                scene.lights@.len() == 0,
                3 * scene.primitives@.len() == i,
                scene.materials@.len() == scene.primitives@.len(),
                spectrum_is_upsampled_rgb(orange, 1_000_000, 400_000, 0),
                spectrum_is_upsampled_rgb(blue, 0, 100_000, 1_000_000),
                spectrum_is_upsampled_rgb(gray, 800_000, 800_000, 800_000),
                gray_bsdf matches Bsdf::Lambertian(l) && l.albedo == gray,
                forall|k: int|
                    0 <= k < scene.materials@.len() ==> (if k < 2 {
                        mat_is_lambert_rgb(#[trigger] scene.materials@[k].data, 1_000_000, 400_000, 0)
                    } else if k < 4 {
                        mat_is_lambert_rgb(scene.materials@[k].data, 0, 100_000, 1_000_000)
                    } else {
                        mat_is_lambert_rgb(scene.materials@[k].data, 800_000, 800_000, 800_000)
                    }),
            decreases vertices@.len() - i,
        {
            let tri = Geometry::Triangle(
                Triangle::new(vertices[i], vertices[i + 1], vertices[i + 2]),
            );
            if i < 6 {
                scene.add_material(tri, Bsdf::Lambertian(LambertianBsdf::new(orange)));
            } else if i < 12 {
                scene.add_material(tri, Bsdf::Lambertian(LambertianBsdf::new(blue)));
            } else {
                scene.add_material(tri, gray_bsdf);
            }
            i = i + 3;
        }

        // ceiling light sphere
        scene.add_emissive_material(
            Geometry::Sphere(Sphere::new(pt(0, 850_000, 1_000_000), Fx::new(100_000))),
            gray_bsdf,
            Spectrum::constant(Fx::new(70_000_000)),
        );

        // a sphere in the room
        scene.add_material(
            Geometry::Sphere(Sphere::new(pt(400_000, 0, 1_000_000), Fx::new(250_000))),
            gray_bsdf,
        );
        scene
    }

    /// A box built from huge spheres instead of triangles, with a ceiling
    /// sphere emitter.
    #[verifier::rlimit(100)]
    #[verifier::spinoff_prover]
    pub fn cornell_box_spheres() -> (r: Scene)
        ensures
            r.wf(),
            r.spectra_nonneg(),
            r.lights@.len() == 1,
            r.primitives@.len() == 7,
            r.materials@.len() == 7,
            prim_is_sphere(r.primitives@[0], 0, -101_000_000, 1_000_000, 100_000_000),
            prim_is_sphere(r.primitives@[1], 0, 101_000_000, 1_000_000, 100_000_000),
            prim_is_sphere(r.primitives@[2], 0, 0, 102_000_000, 100_000_000),
            mat_is_lambert_rgb(r.materials@[0].data, 800_000, 800_000, 800_000),
            mat_is_lambert_rgb(r.materials@[1].data, 800_000, 800_000, 800_000),
            mat_is_lambert_rgb(r.materials@[2].data, 800_000, 800_000, 800_000),
            prim_is_sphere(r.primitives@[3], -101_000_000, 0, 1_000_000, 100_000_000),
            mat_is_lambert_rgb(r.materials@[3].data, 1_000_000, 400_000, 0),
            prim_is_sphere(r.primitives@[4], 101_000_000, 0, 1_000_000, 100_000_000),
            mat_is_lambert_rgb(r.materials@[4].data, 0, 100_000, 1_000_000),
            prim_is_sphere(r.primitives@[5], 0, 800_000, 1_000_000, 150_000),
            mat_is_lambert_constant(r.materials@[5].data, 1_000_000),
            light_is_constant(r.lights@[0].data, 120_000_000),
            r.lights@[0].prim_index == 5,
            prim_is_sphere(r.primitives@[6], 400_000, 0, 1_000_000, 250_000),
            mat_is_lambert_rgb(r.materials@[6].data, 800_000, 800_000, 800_000),
            r.primitives@[6].light_index is None,
    {
        let mut scene = Scene::empty();
        let table = UpsampleTable::load();
        let orange = Spectrum::Upsampled(
            table.get_spectrum(Fx::one(), Fx::new(400_000), Fx::zero()),
        );
        let blue = Spectrum::Upsampled(table.get_spectrum(Fx::zero(), Fx::new(100_000), Fx::one()));
        let gray = Spectrum::Upsampled(
            table.get_spectrum(Fx::new(800_000), Fx::new(800_000), Fx::new(800_000)),
        );
        let gray_bsdf = Bsdf::Lambertian(LambertianBsdf::new(gray));
        let big = Fx::new(100_000_000);

        scene.add_material(Geometry::Sphere(Sphere::new(pt(0, -101_000_000, 1_000_000), big)), gray_bsdf);
        scene.add_material(Geometry::Sphere(Sphere::new(pt(0, 101_000_000, 1_000_000), big)), gray_bsdf);
        scene.add_material(Geometry::Sphere(Sphere::new(pt(0, 0, 102_000_000), big)), gray_bsdf);
        scene.add_material(
            Geometry::Sphere(Sphere::new(pt(-101_000_000, 0, 1_000_000), big)),
            Bsdf::Lambertian(LambertianBsdf::new(orange)),
        );
        scene.add_material(
            Geometry::Sphere(Sphere::new(pt(101_000_000, 0, 1_000_000), big)),
            Bsdf::Lambertian(LambertianBsdf::new(blue)),
        );

        // ceiling light
        scene.add_emissive_material(
            Geometry::Sphere(Sphere::new(pt(0, 800_000, 1_000_000), Fx::new(150_000))),
            Bsdf::Lambertian(LambertianBsdf::new(Spectrum::constant(Fx::one()))),
            Spectrum::constant(Fx::new(120_000_000)),
        );

        // a sphere in the room
        scene.add_material(
            Geometry::Sphere(Sphere::new(pt(400_000, 0, 1_000_000), Fx::new(250_000))),
            gray_bsdf,
        );
        scene
    }

    /// A box with unit constant reflectance everywhere and a two-triangle
    /// ceiling light, for brightness calibration.
    #[verifier::rlimit(100)]
    #[verifier::spinoff_prover]
    pub fn cornell_box_constant() -> (r: Scene)
        ensures
            r.wf(),
            r.spectra_nonneg(),
            r.lights@.len() == 2,
            r.primitives@.len() == 13,
            r.materials@.len() == 13,
            forall|k: int|
                0 <= k < 13 ==> mat_is_lambert_constant(
                    (#[trigger] r.materials@[k]).data,
                    1_000_000,
                ),
            prim_is_triangle(
                r.primitives@[10],
                -250_000,
                950_000,
                1_250_000,
                250_000,
                950_000,
                1_250_000,
                -250_000,
                950_000,
                750_000,
            ),
            light_is_constant(r.lights@[0].data, 120_000_000),
            r.lights@[0].prim_index == 10,
            prim_is_triangle(
                r.primitives@[11],
                -250_000,
                950_000,
                750_000,
                250_000,
                950_000,
                1_250_000,
                250_000,
                950_000,
                750_000,
            ),
            light_is_constant(r.lights@[1].data, 120_000_000),
            r.lights@[1].prim_index == 11,
            prim_is_sphere(r.primitives@[12], 400_000, 0, 1_000_000, 250_000),
            r.primitives@[12].light_index is None,
    {
        let mut scene = Scene::empty();
        let white = Bsdf::Lambertian(LambertianBsdf::new(Spectrum::constant(Fx::one())));

        let vertices = Scene::get_vertices_cornell_box();
        let mut i: usize = 0;
        while i + 3 <= vertices.len()
            invariant
                scene.wf(),
                scene.spectra_nonneg(),
                vertices@.len() == 30,
                i <= 30,
                scene.lights@.len() == 0,
                3 * scene.primitives@.len() == i,
                scene.materials@.len() == scene.primitives@.len(),
                mat_is_lambert_constant(white, 1_000_000),
                forall|k: int|
                    0 <= k < scene.materials@.len() ==> mat_is_lambert_constant(
                        (#[trigger] scene.materials@[k]).data,
                        1_000_000,
                    ),
            decreases vertices@.len() - i,
        {
            scene.add_material(
                Geometry::Triangle(Triangle::new(vertices[i], vertices[i + 1], vertices[i + 2])),
                white,
            );
            i = i + 3;
        }

        // ceiling light as two triangles
        let ls: i64 = 250_000;
        let emission = Spectrum::constant(Fx::new(120_000_000));
        scene.add_emissive_material(
            Geometry::Triangle(
                Triangle::new(
                    pt(-ls, 950_000, 1_000_000 + ls),
                    pt(ls, 950_000, 1_000_000 + ls),
                    pt(-ls, 950_000, 1_000_000 - ls),
                ),
            ),
            white,
            emission,
        );
        scene.add_emissive_material(
            Geometry::Triangle(
                Triangle::new(
                    pt(-ls, 950_000, 1_000_000 - ls),
                    pt(ls, 950_000, 1_000_000 + ls),
                    pt(ls, 950_000, 1_000_000 - ls),
                ),
            ),
            white,
            emission,
        );

        // a sphere in the room
        scene.add_material(
            Geometry::Sphere(Sphere::new(pt(400_000, 0, 1_000_000), Fx::new(250_000))),
            white,
        );
        scene
    }

    /// The smallest meaningful stage: one emitter between a floor and a
    /// ceiling sphere.
    pub fn dummy() -> (r: Scene)
        ensures
            r.wf(),
            r.spectra_nonneg(),
            r.lights@.len() == 1,
            r.primitives@.len() == 3,
            r.materials@.len() == 3,
            prim_is_sphere(r.primitives@[0], 0, 0, 2_000_000, 500_000),
            r.primitives@[0].material_index == Some(0usize),
            r.primitives@[0].light_index == Some(0usize),
            mat_is_lambert_constant(r.materials@[0].data, 500_000),
            light_is_constant(r.lights@[0].data, 1_000_000),
            r.lights@[0].prim_index == 0,
            prim_is_sphere(r.primitives@[1], 0, -101_000_000, 1_000_000, 100_000_000),
            mat_is_lambert_constant(r.materials@[1].data, 2_000_000),
            r.primitives@[1].light_index is None,
            prim_is_sphere(r.primitives@[2], 0, 101_000_000, 1_000_000, 100_000_000),
            mat_is_lambert_constant(r.materials@[2].data, 2_000_000),
            r.primitives@[2].light_index is None,
    {
        let mut scene = Scene::empty();
        scene.add_emissive_material(
            Geometry::Sphere(Sphere::new(pt(0, 0, 2_000_000), Fx::new(500_000))),
            Bsdf::Lambertian(LambertianBsdf::new(Spectrum::constant(Fx::new(500_000)))),
            Spectrum::constant(Fx::one()),
        );
        scene.add_material(
            Geometry::Sphere(Sphere::new(pt(0, -101_000_000, 1_000_000), Fx::new(100_000_000))),
            Bsdf::Lambertian(LambertianBsdf::new(Spectrum::constant(Fx::new(2_000_000)))),
        );
        scene.add_material(
            Geometry::Sphere(Sphere::new(pt(0, 101_000_000, 1_000_000), Fx::new(100_000_000))),
            Bsdf::Lambertian(LambertianBsdf::new(Spectrum::constant(Fx::new(2_000_000)))),
        );
        scene
    }

    /// The vertices of the five-sided box, three per triangle.
    fn get_vertices_cornell_box() -> (r: Vec<Point3>)
        ensures
            r@.len() == 30,
    {
        let v: Vec<Point3> = vec![
            // left wall
            pt(-1_000_000, -1_000_000, 2_000_000),
            pt(-1_000_000, 1_000_000, 2_000_000),
            pt(-1_000_000, -1_000_000, 0),
            pt(-1_000_000, -1_000_000, 0),
            pt(-1_000_000, 1_000_000, 2_000_000),
            pt(-1_000_000, 1_000_000, 0),
            // right wall
            pt(1_000_000, -1_000_000, 2_000_000),
            pt(1_000_000, -1_000_000, 0),
            pt(1_000_000, 1_000_000, 0),
            pt(1_000_000, 1_000_000, 0),
            pt(1_000_000, 1_000_000, 2_000_000),
            pt(1_000_000, -1_000_000, 2_000_000),
            // back wall
            pt(-1_000_000, 1_000_000, 2_000_000),
            pt(-1_000_000, -1_000_000, 2_000_000),
            pt(1_000_000, 1_000_000, 2_000_000),
            pt(1_000_000, 1_000_000, 2_000_000),
            pt(-1_000_000, -1_000_000, 2_000_000),
            pt(1_000_000, -1_000_000, 2_000_000),
            // floor
            pt(-1_000_000, -1_000_000, 0),
            pt(1_000_000, -1_000_000, 0),
            pt(-1_000_000, -1_000_000, 2_000_000),
            pt(-1_000_000, -1_000_000, 2_000_000),
            pt(1_000_000, -1_000_000, 0),
            pt(1_000_000, -1_000_000, 2_000_000),
            // ceiling
            pt(-1_000_000, 1_000_000, 2_000_000),
            pt(1_000_000, 1_000_000, 2_000_000),
            pt(-1_000_000, 1_000_000, 0),
            pt(-1_000_000, 1_000_000, 0),
            pt(1_000_000, 1_000_000, 2_000_000),
            pt(1_000_000, 1_000_000, 0),
        ];
        v
    }

    /// The vertices of a closed axis-aligned box around a center with the
    /// given half-extents, three per triangle: every point is a corner of
    /// the box, each coordinate the center's pushed by the half-extent to
    /// one side or the other.
    fn get_vertices_closed_box(center: Point3, half: Vec3) -> (r: Vec<Point3>)
        ensures
            r@.len() == 36,
            forall|k: int|
                0 <= k < 36 ==> {
                    &&& ((#[trigger] r@[k]).x@ == fx_add(center.x@, half.x@) || r@[k].x@ == fx_add(
                        center.x@,
                        crate::fixed::clip(-half.x@),
                    ))
                    &&& (r@[k].y@ == fx_add(center.y@, half.y@) || r@[k].y@ == fx_add(
                        center.y@,
                        crate::fixed::clip(-half.y@),
                    ))
                    &&& (r@[k].z@ == fx_add(center.z@, half.z@) || r@[k].z@ == fx_add(
                        center.z@,
                        crate::fixed::clip(-half.z@),
                    ))
                },
    {
        let bfl = center.add_vec(Vec3::new(half.x.neg(), half.y.neg(), half.z.neg()));
        let bfr = center.add_vec(Vec3::new(half.x, half.y.neg(), half.z.neg()));
        let bbl = center.add_vec(Vec3::new(half.x.neg(), half.y.neg(), half.z));
        let bbr = center.add_vec(Vec3::new(half.x, half.y.neg(), half.z));
        let tfl = center.add_vec(Vec3::new(half.x.neg(), half.y, half.z.neg()));
        let tfr = center.add_vec(Vec3::new(half.x, half.y, half.z.neg()));
        let tbl = center.add_vec(Vec3::new(half.x.neg(), half.y, half.z));
        let tbr = center.add_vec(Vec3::new(half.x, half.y, half.z));
        let v: Vec<Point3> = vec![
            // floor
            bfl, bbl, bbr, bfl, bbr, bfr,
            // ceiling
            tfl, tbr, tbl, tfl, tfr, tbr,
            // front
            bfl, bfr, tfr, bfl, tfr, tfl,
            // back
            bbr, bbl, tbr, bbl, tbl, tbr,
            // left
            bbl, bfl, tfl, bbl, tfl, tbl,
            // right
            bfr, bbr, tfr, bbr, tbr, tfr,
        ];
        v
    }
}

} // verus!
