//! Path-tracing integrators.
//!
//! [`PathIntegrator`] is the shipping integrator: next-event estimation at
//! every bounce plus BSDF extension, with the hero-wavelength balance
//! weight over the accumulated path densities. [`HwssModified`] is the
//! recursive variant without next-event estimation, which gathers emission
//! wherever a path lands.
//!
//! Both carry the contracts that make the end-to-end behavior checkable:
//! a scene without emitters yields exactly zero; with hero-wavelength
//! weighting off only the hero lane is nonzero; over an admissible scene
//! every lane is nonnegative; and when the camera ray's closest hit is an
//! emitter, the estimate is bounded below by that emitter's weighted
//! first-hit emission — a constant or always-failing body cannot meet
//! these.

use vstd::prelude::*;
use crate::fixed::{
    Fx,
    SCALE,
    fx_add,
    fx_mul,
    fx_div,
    lemma_fx_mul_nonneg,
    lemma_fx_div_nonneg,
    lemma_fx_mul_one_left,
    lemma_fx_mul_comm,
};
use crate::math::Ray;
use crate::sampling::{Sampler, balance_heuristic_1};
use crate::scene::{Scene, closest_hit, lemma_closest_hit_is_minimal};
use crate::spectrum::{
    SpectralSample,
    PdfSet,
    Wavelength,
    spectrum_eval_spec,
    lane_spec,
    lemma_spectrum_eval_nonneg,
};

verus! {

/// Paths end after this many bounces.
pub const MAX_DEPTH: u32 = 15;

/// The balance-heuristic weight of lane `i` for a path-density set whose
/// lanes are `p0..p3`, with hero-wavelength weighting `hwss`: the lane's
/// share of the lane sum, or the pure hero weight.
pub open spec fn mis_weight_lane_spec(hwss: bool, p0: int, p1: int, p2: int, p3: int, i: int) -> int {
    if hwss {
        let s = fx_add(fx_add(fx_add(p0, p1), p2), p3);
        if i == 0 {
            fx_div(p0, s)
        } else if i == 1 {
            fx_div(p1, s)
        } else if i == 2 {
            fx_div(p2, s)
        } else {
            fx_div(p3, s)
        }
    } else {
        if i == 0 {
            SCALE as int
        } else {
            0
        }
    }
}

/// The first-hit emission floor of lane `i`: the emission of the light the
/// ray first hits, carried by a unit throughput and the balance weight of
/// a unit path-density set.
pub open spec fn first_emission_floor_spec(
    hwss: bool,
    scene: Scene,
    ray: Ray,
    wavelength: Wavelength,
    li: int,
    i: int,
) -> int {
    let le = spectrum_eval_spec(scene.lights@[li].data, lane_spec(wavelength, i));
    if hwss {
        fx_mul(le, 250_000)
    } else {
        if i == 0 {
            le
        } else {
            0
        }
    }
}

/// The iterative path tracer with next-event estimation.
pub struct PathIntegrator {
    /// Whether hero-wavelength weighting is on; off, only the hero lane
    /// contributes and the estimate is single-wavelength.
    pub hwss: bool,
}

impl Default for PathIntegrator {
    /// The default integrator has hero-wavelength weighting on.
    fn default() -> (r: PathIntegrator)
        ensures
            r.hwss == true,
    {
        PathIntegrator { hwss: true }
    }
}

impl PathIntegrator {
    /// The multiple-importance weight for a path-density set: the balance
    /// heuristic over the four wavelength hypotheses, or the pure hero
    /// weight when hero-wavelength sampling is off. Nonnegative densities
    /// get nonnegative weights.
    pub fn get_mis_weight(&self, path_pdfs: PdfSet) -> (r: PdfSet)
        ensures
            r.l0@ == mis_weight_lane_spec(
                self.hwss,
                path_pdfs.l0@,
                path_pdfs.l1@,
                path_pdfs.l2@,
                path_pdfs.l3@,
                0,
            ),
            r.l1@ == mis_weight_lane_spec(
                self.hwss,
                path_pdfs.l0@,
                path_pdfs.l1@,
                path_pdfs.l2@,
                path_pdfs.l3@,
                1,
            ),
            r.l2@ == mis_weight_lane_spec(
                self.hwss,
                path_pdfs.l0@,
                path_pdfs.l1@,
                path_pdfs.l2@,
                path_pdfs.l3@,
                2,
            ),
            r.l3@ == mis_weight_lane_spec(
                self.hwss,
                path_pdfs.l0@,
                path_pdfs.l1@,
                path_pdfs.l2@,
                path_pdfs.l3@,
                3,
            ),
            (path_pdfs.l0@ >= 0 && path_pdfs.l1@ >= 0 && path_pdfs.l2@ >= 0 && path_pdfs.l3@ >= 0)
                ==> (r.l0@ >= 0 && r.l1@ >= 0 && r.l2@ >= 0 && r.l3@ >= 0),
    {
        let r = if self.hwss {
            balance_heuristic_1(path_pdfs)
        } else {
            PdfSet::new(Fx::one(), Fx::zero(), Fx::zero(), Fx::zero())
        };
        proof {
            if path_pdfs.l0@ >= 0 && path_pdfs.l1@ >= 0 && path_pdfs.l2@ >= 0 && path_pdfs.l3@
                >= 0 {
                let s = fx_add(fx_add(fx_add(path_pdfs.l0@, path_pdfs.l1@), path_pdfs.l2@), path_pdfs.l3@);
                lemma_fx_div_nonneg(path_pdfs.l0@, s);
                lemma_fx_div_nonneg(path_pdfs.l1@, s);
                lemma_fx_div_nonneg(path_pdfs.l2@, s);
                lemma_fx_div_nonneg(path_pdfs.l3@, s);
            }
        }
        r
    }

    /// What the integrator hands back: the full 4-lane estimate, or only
    /// the hero lane when hero-wavelength sampling is off.
    pub fn determine_radiance(&self, radiance: SpectralSample) -> (r: SpectralSample)
        ensures
            self.hwss ==> r == radiance,
            !self.hwss ==> (r.l0 == radiance.l0 && r.l1@ == 0 && r.l2@ == 0 && r.l3@ == 0),
    {
        if self.hwss {
            radiance
        } else {
            SpectralSample::new(radiance.l0, Fx::zero(), Fx::zero(), Fx::zero())
        }
    }

    /// One pixel sample's radiance estimate along a camera ray. A scene
    /// without emitters yields exactly zero; with hero-wavelength
    /// weighting off the non-hero lanes are exactly zero; over an
    /// admissible scene every lane is nonnegative and, when the ray's
    /// closest hit is an emitter, at least that emitter's weighted
    /// first-hit emission.
    #[verifier::rlimit(100)]
    #[verifier::spinoff_prover]
    pub fn radiance(&self, scene: &Scene, ray: Ray, wavelength: Wavelength, sampler: &mut Sampler)
        -> (r: SpectralSample)
        requires
            scene.wf(),
            wavelength.wf(),
            old(sampler).wf(),
            scene.lights@.len() <= 1_000_000,
        ensures
            final(sampler).wf(),
            scene.lights@.len() == 0 ==> (r.l0@ == 0 && r.l1@ == 0 && r.l2@ == 0 && r.l3@ == 0),
            !self.hwss ==> (r.l1@ == 0 && r.l2@ == 0 && r.l3@ == 0),
            scene.spectra_nonneg() ==> (r.l0@ >= 0 && r.l1@ >= 0 && r.l2@ >= 0 && r.l3@ >= 0),
            closest_hit(scene.primitives@, ray) matches Some(h) ==> (scene.primitives@[
                h.0
            ].light_index matches Some(li) ==> (scene.spectra_nonneg() ==> {
                &&& r.l0@ >= first_emission_floor_spec(self.hwss, *scene, ray, wavelength, li as int, 0)
                &&& self.hwss ==> r.l1@ >= first_emission_floor_spec(self.hwss, *scene, ray, wavelength, li as int, 1)
                &&& self.hwss ==> r.l2@ >= first_emission_floor_spec(self.hwss, *scene, ray, wavelength, li as int, 2)
                &&& self.hwss ==> r.l3@ >= first_emission_floor_spec(self.hwss, *scene, ray, wavelength, li as int, 3)
            })),
    {
        let mut radiance = SpectralSample::splat(Fx::zero());
        let mut throughput = SpectralSample::splat(Fx::one());
        let mut path_pdfs = PdfSet::splat(Fx::one());
        let mut cur_ray = ray;
        let mut bounce: u32 = 0;
        let ghost mut first_resolved: bool = false;
        while bounce < MAX_DEPTH
            invariant
                scene.wf(),
                wavelength.wf(),
                sampler.wf(),
                scene.lights@.len() <= 1_000_000,
                scene.lights@.len() == 0 ==> (radiance.l0@ == 0 && radiance.l1@ == 0
                    && radiance.l2@ == 0 && radiance.l3@ == 0),
                scene.spectra_nonneg() ==> (radiance.l0@ >= 0 && radiance.l1@ >= 0 && radiance.l2@
                    >= 0 && radiance.l3@ >= 0 && throughput.l0@ >= 0 && throughput.l1@ >= 0
                    && throughput.l2@ >= 0 && throughput.l3@ >= 0 && path_pdfs.l0@ >= 0
                    && path_pdfs.l1@ >= 0 && path_pdfs.l2@ >= 0 && path_pdfs.l3@ >= 0),
                !first_resolved ==> (bounce == 0 && cur_ray == ray && radiance.l0@ == 0
                    && radiance.l1@ == 0 && radiance.l2@ == 0 && radiance.l3@ == 0
                    && throughput.l0@ == SCALE as int && throughput.l1@ == SCALE as int
                    && throughput.l2@ == SCALE as int && throughput.l3@ == SCALE as int
                    && path_pdfs.l0@ == SCALE as int && path_pdfs.l1@ == SCALE as int
                    && path_pdfs.l2@ == SCALE as int && path_pdfs.l3@ == SCALE as int),
                first_resolved ==> (closest_hit(scene.primitives@, ray) matches Some(h) ==> (
                scene.primitives@[h.0].light_index matches Some(li) ==> (scene.spectra_nonneg()
                    ==> {
                    &&& radiance.l0@ >= first_emission_floor_spec(self.hwss, *scene, ray, wavelength, li as int, 0)
                    &&& self.hwss ==> radiance.l1@ >= first_emission_floor_spec(self.hwss, *scene, ray, wavelength, li as int, 1)
                    &&& self.hwss ==> radiance.l2@ >= first_emission_floor_spec(self.hwss, *scene, ray, wavelength, li as int, 2)
                    &&& self.hwss ==> radiance.l3@ >= first_emission_floor_spec(self.hwss, *scene, ray, wavelength, li as int, 3)
                }))),
                bounce >= 1 ==> first_resolved,
            ensures
                first_resolved,
            decreases MAX_DEPTH - bounce,
        {
            // cast the ray to find an intersection
            let hit_result = scene.intersection(&cur_ray);
            let (prim_index, hit, _t) = match hit_result {
                Some(h) => h,
                None => {
                    proof {
                        first_resolved = true;
                    }
                    break ;
                },
            };
            let prim = &scene.primitives[prim_index];

            // the first hit's emission has no earlier bounce to account
            // for it; later hits' emission is gathered by next-event
            // estimation instead, never twice
            if bounce == 0 {
                match prim.get_light(&scene.lights) {
                    Some(light) => {
                        let le = light.evaluate(wavelength);
                        let weight = self.get_mis_weight(path_pdfs);
                        let term = throughput.mul(le).mul_pdf(weight);
                        proof {
                            if scene.spectra_nonneg() {
                                let ghost li = prim.light_index->Some_0;
                                lemma_spectrum_eval_nonneg(
                                    scene.lights@[li as int].data,
                                    lane_spec(wavelength, 0),
                                );
                                lemma_spectrum_eval_nonneg(
                                    scene.lights@[li as int].data,
                                    lane_spec(wavelength, 1),
                                );
                                lemma_spectrum_eval_nonneg(
                                    scene.lights@[li as int].data,
                                    lane_spec(wavelength, 2),
                                );
                                lemma_spectrum_eval_nonneg(
                                    scene.lights@[li as int].data,
                                    lane_spec(wavelength, 3),
                                );
                                lemma_fx_mul_one_left(le.l0@);
                                lemma_fx_mul_one_left(le.l1@);
                                lemma_fx_mul_one_left(le.l2@);
                                lemma_fx_mul_one_left(le.l3@);
                                if self.hwss {
                                    vstd::arithmetic::div_mod::lemma_fundamental_div_mod_converse(
                                        1_000_000int * 1_000_000int,
                                        4_000_000int,
                                        250_000int,
                                        0int,
                                    );
                                } else {
                                    lemma_fx_mul_comm(le.l0@, SCALE as int);
                                    lemma_fx_mul_one_left(le.l0@);
                                }
                                lemma_fx_mul_nonneg(fx_mul(throughput.l0@, le.l0@), weight.l0@);
                                lemma_fx_mul_nonneg(fx_mul(throughput.l1@, le.l1@), weight.l1@);
                                lemma_fx_mul_nonneg(fx_mul(throughput.l2@, le.l2@), weight.l2@);
                                lemma_fx_mul_nonneg(fx_mul(throughput.l3@, le.l3@), weight.l3@);
                            }
                        }
                        radiance = radiance.add(term);
                    },
                    None => {},
                }
                proof {
                    first_resolved = true;
                }
            }

            // the surface must have a material to scatter off
            let bsdf = match prim.get_material(&scene.materials) {
                Some(b) => *b,
                None => { break ; },
            };

            // next-event estimation: connect to one uniformly chosen light
            if scene.lights.len() > 0 {
                let (light_idx, light_pick_factor) = scene.pick_one_light(sampler);
                let light_entry_prim = scene.lights[light_idx].prim_index;
                let light_emission = scene.lights[light_idx].data.evaluate(wavelength);
                let light_prim = &scene.primitives[light_entry_prim];
                let shading_wo = hit.world_to_shading(cur_ray.d().neg());
                let (light_pos, light_pdf) = light_prim.sample(&hit, sampler);
                let ray_to_light = Ray::spawn_to(hit.point, light_pos, hit.normal);
                let facing_forward = Fx::zero().lt(light_pos.sub(hit.point).dot(hit.normal));
                if Fx::zero().lt(light_pdf) && facing_forward != hit.back_face && Fx::new(10).lt(
                    light_pos.distance_squared(hit.point),
                ) && scene.ray_hits_point(&ray_to_light, light_pos) {
                    let shading_wi = hit.world_to_shading(ray_to_light.d());
                    let bsdf_values = bsdf.evaluate(shading_wi, shading_wo, wavelength);
                    let cos_theta = shading_wi.cos_theta().abs();
                    let single_light = bsdf_values.scale(cos_theta).mul(light_emission)
                        .div_scalar(light_pdf);
                    let weight = self.get_mis_weight(path_pdfs);
                    let term = throughput.mul(single_light).scale(light_pick_factor).mul_pdf(
                        weight,
                    );
                    proof {
                        if scene.spectra_nonneg() {
                            assert(crate::bsdf::bsdf_nonneg(bsdf));
                            lemma_spectrum_eval_nonneg(
                                scene.lights@[light_idx as int].data,
                                lane_spec(wavelength, 0),
                            );
                            lemma_spectrum_eval_nonneg(
                                scene.lights@[light_idx as int].data,
                                lane_spec(wavelength, 1),
                            );
                            lemma_spectrum_eval_nonneg(
                                scene.lights@[light_idx as int].data,
                                lane_spec(wavelength, 2),
                            );
                            lemma_spectrum_eval_nonneg(
                                scene.lights@[light_idx as int].data,
                                lane_spec(wavelength, 3),
                            );
                            lemma_nonneg_chain(
                                bsdf_values.l0@,
                                cos_theta@,
                                light_emission.l0@,
                                light_pdf@,
                                throughput.l0@,
                                light_pick_factor@,
                                weight.l0@,
                            );
                            lemma_nonneg_chain(
                                bsdf_values.l1@,
                                cos_theta@,
                                light_emission.l1@,
                                light_pdf@,
                                throughput.l1@,
                                light_pick_factor@,
                                weight.l1@,
                            );
                            lemma_nonneg_chain(
                                bsdf_values.l2@,
                                cos_theta@,
                                light_emission.l2@,
                                light_pdf@,
                                throughput.l2@,
                                light_pick_factor@,
                                weight.l2@,
                            );
                            lemma_nonneg_chain(
                                bsdf_values.l3@,
                                cos_theta@,
                                light_emission.l3@,
                                light_pdf@,
                                throughput.l3@,
                                light_pick_factor@,
                                weight.l3@,
                            );
                        }
                    }
                    radiance = radiance.add(term);
                }
            }

            // the last bounce needs no extension
            if bounce == MAX_DEPTH - 1 {
                break ;
            }

            // extend the path by sampling the BSDF
            let shading_wo = hit.world_to_shading(cur_ray.d().neg());
            let (sampled_wi, bsdf_values, bsdf_pdfs) = bsdf.sample(
                shading_wo,
                wavelength,
                sampler,
            );
            let cos_theta = sampled_wi.cos_theta().abs();
            if bsdf_pdfs.hero().is_zero() || cos_theta.is_zero() {
                break ;
            }
            proof {
                if scene.spectra_nonneg() {
                    assert(crate::bsdf::bsdf_nonneg(bsdf));
                    lemma_throughput_step(throughput.l0@, bsdf_values.l0@, cos_theta@, bsdf_pdfs.l0@);
                    lemma_throughput_step(throughput.l1@, bsdf_values.l1@, cos_theta@, bsdf_pdfs.l0@);
                    lemma_throughput_step(throughput.l2@, bsdf_values.l2@, cos_theta@, bsdf_pdfs.l0@);
                    lemma_throughput_step(throughput.l3@, bsdf_values.l3@, cos_theta@, bsdf_pdfs.l0@);
                    lemma_fx_mul_nonneg(path_pdfs.l0@, bsdf_pdfs.l0@);
                    lemma_fx_mul_nonneg(path_pdfs.l1@, bsdf_pdfs.l1@);
                    lemma_fx_mul_nonneg(path_pdfs.l2@, bsdf_pdfs.l2@);
                    lemma_fx_mul_nonneg(path_pdfs.l3@, bsdf_pdfs.l3@);
                }
            }
            throughput = throughput.mul(bsdf_values).scale(cos_theta).div_scalar(
                bsdf_pdfs.hero(),
            );
            path_pdfs = path_pdfs.mul(bsdf_pdfs);
            let world_wi = hit.shading_to_world(sampled_wi);
            cur_ray = Ray::spawn(hit.point, world_wi, hit.normal);
            bounce = bounce + 1;
        }
        self.determine_radiance(radiance)
    }
}

/// Each factor of a light-connection term is nonnegative, so the folded
/// term is: `((b * c * e / p) * t * n) * w >= 0`.
proof fn lemma_nonneg_chain(b: int, c: int, e: int, p: int, t: int, n: int, w: int)
    requires
        b >= 0,
        c >= 0,
        e >= 0,
        p >= 0,
        t >= 0,
        n >= 0,
        w >= 0,
    ensures
        fx_mul(fx_mul(fx_mul(t, fx_div(fx_mul(fx_mul(b, c), e), p)), n), w) >= 0,
{
    lemma_fx_mul_nonneg(b, c);
    lemma_fx_mul_nonneg(fx_mul(b, c), e);
    lemma_fx_div_nonneg(fx_mul(fx_mul(b, c), e), p);
    lemma_fx_mul_nonneg(t, fx_div(fx_mul(fx_mul(b, c), e), p));
    lemma_fx_mul_nonneg(fx_mul(t, fx_div(fx_mul(fx_mul(b, c), e), p)), n);
    lemma_fx_mul_nonneg(fx_mul(fx_mul(t, fx_div(fx_mul(fx_mul(b, c), e), p)), n), w);
}

/// A path-extension step keeps the throughput nonnegative:
/// `(t * b * c) / h >= 0`.
proof fn lemma_throughput_step(t: int, b: int, c: int, h: int)
    requires
        t >= 0,
        b >= 0,
        c >= 0,
        h >= 0,
    ensures
        fx_div(fx_mul(fx_mul(t, b), c), h) >= 0,
{
    lemma_fx_mul_nonneg(t, b);
    lemma_fx_mul_nonneg(fx_mul(t, b), c);
    lemma_fx_div_nonneg(fx_mul(fx_mul(t, b), c), h);
}

/// The recursive integrator: no next-event estimation, emission gathered
/// wherever a path lands.
pub struct HwssModified {
    /// Whether hero-wavelength weighting is on.
    pub hwss: bool,
}

impl Default for HwssModified {
    /// The default integrator has hero-wavelength weighting on.
    fn default() -> (r: HwssModified)
        ensures
            r.hwss == true,
    {
        HwssModified { hwss: true }
    }
}

impl HwssModified {
    /// One pixel sample's radiance estimate along a camera ray: the
    /// recursive gather with full depth, unit throughput and unit path
    /// densities.
    pub fn radiance(&self, scene: &Scene, ray: Ray, wavelength: Wavelength, sampler: &mut Sampler)
        -> (r: SpectralSample)
        requires
            scene.wf(),
            wavelength.wf(),
            old(sampler).wf(),
        ensures
            final(sampler).wf(),
            scene.lights@.len() == 0 ==> (r.l0@ == 0 && r.l1@ == 0 && r.l2@ == 0 && r.l3@ == 0),
            !self.hwss ==> (r.l1@ == 0 && r.l2@ == 0 && r.l3@ == 0),
            scene.spectra_nonneg() ==> (r.l0@ >= 0 && r.l1@ >= 0 && r.l2@ >= 0 && r.l3@ >= 0),
            closest_hit(scene.primitives@, ray) matches Some(h) ==> (scene.primitives@[
                h.0
            ].light_index matches Some(li) ==> ((scene.spectra_nonneg() && scene.primitives@[
                h.0
            ].material_index is Some) ==> {
                &&& r.l0@ >= first_emission_floor_spec(self.hwss, *scene, ray, wavelength, li as int, 0)
                &&& self.hwss ==> r.l1@ >= first_emission_floor_spec(self.hwss, *scene, ray, wavelength, li as int, 1)
                &&& self.hwss ==> r.l2@ >= first_emission_floor_spec(self.hwss, *scene, ray, wavelength, li as int, 2)
                &&& self.hwss ==> r.l3@ >= first_emission_floor_spec(self.hwss, *scene, ray, wavelength, li as int, 3)
            })),
    {
        let throughput = SpectralSample::splat(Fx::one());
        let path_pdfs = PdfSet::splat(Fx::one());
        let radiance = self.radiance_recursive(
            scene,
            ray,
            wavelength,
            sampler,
            MAX_DEPTH,
            throughput,
            path_pdfs,
        );
        proof {
            if scene.spectra_nonneg() && closest_hit(scene.primitives@, ray) is Some {
                lemma_closest_hit_is_minimal(scene.primitives@, ray);
                let h = closest_hit(scene.primitives@, ray)->Some_0;
                if scene.primitives@[h.0].light_index is Some {
                    let li = scene.primitives@[h.0].light_index->Some_0;
                    lemma_spectrum_eval_nonneg(
                        scene.lights@[li as int].data,
                        lane_spec(wavelength, 0),
                    );
                    lemma_spectrum_eval_nonneg(
                        scene.lights@[li as int].data,
                        lane_spec(wavelength, 1),
                    );
                    lemma_spectrum_eval_nonneg(
                        scene.lights@[li as int].data,
                        lane_spec(wavelength, 2),
                    );
                    lemma_spectrum_eval_nonneg(
                        scene.lights@[li as int].data,
                        lane_spec(wavelength, 3),
                    );
                    lemma_fx_mul_one_left(
                        spectrum_eval_spec(scene.lights@[li as int].data, lane_spec(wavelength, 0)),
                    );
                    lemma_fx_mul_one_left(
                        spectrum_eval_spec(scene.lights@[li as int].data, lane_spec(wavelength, 1)),
                    );
                    lemma_fx_mul_one_left(
                        spectrum_eval_spec(scene.lights@[li as int].data, lane_spec(wavelength, 2)),
                    );
                    lemma_fx_mul_one_left(
                        spectrum_eval_spec(scene.lights@[li as int].data, lane_spec(wavelength, 3)),
                    );
                    if self.hwss {
                        vstd::arithmetic::div_mod::lemma_fundamental_div_mod_converse(
                            1_000_000int * 1_000_000int,
                            4_000_000int,
                            250_000int,
                            0int,
                        );
                    } else {
                        lemma_fx_mul_comm(
                            spectrum_eval_spec(
                                scene.lights@[li as int].data,
                                lane_spec(wavelength, 0),
                            ),
                            SCALE as int,
                        );
                    }
                }
            }
        }
        if self.hwss {
            radiance
        } else {
            SpectralSample::new(radiance.l0, Fx::zero(), Fx::zero(), Fx::zero())
        }
    }

    /// The radiance gathered by the remaining bounces of a path: the
    /// emission where the ray lands, weighted, plus the weighted, scaled
    /// estimate of the path's continuation. A scene without emitters, an
    /// exhausted bounce budget, a miss, and a hit without a material each
    /// yield exactly zero; over an admissible scene with a nonnegative
    /// carried state the estimate is nonnegative and, when the ray lands
    /// on an emitting material, at least the carried, weighted emission.
    #[verifier::rlimit(100)]
    #[verifier::spinoff_prover]
    pub fn radiance_recursive(
        &self,
        scene: &Scene,
        ray: Ray,
        wavelength: Wavelength,
        sampler: &mut Sampler,
        more_bounces: u32,
        throughput: SpectralSample,
        path_pdfs: PdfSet,
    ) -> (r: SpectralSample)
        requires
            scene.wf(),
            wavelength.wf(),
            old(sampler).wf(),
        ensures
            final(sampler).wf(),
            scene.lights@.len() == 0 ==> (r.l0@ == 0 && r.l1@ == 0 && r.l2@ == 0 && r.l3@ == 0),
            more_bounces == 0 ==> (r.l0@ == 0 && r.l1@ == 0 && r.l2@ == 0 && r.l3@ == 0),
            closest_hit(scene.primitives@, ray) is None ==> (r.l0@ == 0 && r.l1@ == 0 && r.l2@
                == 0 && r.l3@ == 0),
            (closest_hit(scene.primitives@, ray) matches Some(h) && scene.primitives@[
                h.0
            ].material_index is None) ==> (r.l0@ == 0 && r.l1@ == 0 && r.l2@ == 0 && r.l3@ == 0),
            (scene.spectra_nonneg() && throughput.l0@ >= 0 && throughput.l1@ >= 0
                && throughput.l2@ >= 0 && throughput.l3@ >= 0 && path_pdfs.l0@ >= 0
                && path_pdfs.l1@ >= 0 && path_pdfs.l2@ >= 0 && path_pdfs.l3@ >= 0) ==> {
                &&& r.l0@ >= 0 && r.l1@ >= 0 && r.l2@ >= 0 && r.l3@ >= 0
                &&& closest_hit(scene.primitives@, ray) matches Some(h) ==> (scene.primitives@[
                    h.0
                ].light_index matches Some(li) ==> ((more_bounces > 0 && scene.primitives@[
                    h.0
                ].material_index is Some) ==> {
                    let le0 = spectrum_eval_spec(scene.lights@[li as int].data, lane_spec(wavelength, 0));
                    let le1 = spectrum_eval_spec(scene.lights@[li as int].data, lane_spec(wavelength, 1));
                    let le2 = spectrum_eval_spec(scene.lights@[li as int].data, lane_spec(wavelength, 2));
                    let le3 = spectrum_eval_spec(scene.lights@[li as int].data, lane_spec(wavelength, 3));
                    &&& r.l0@ >= fx_mul(
                        fx_mul(throughput.l0@, le0),
                        mis_weight_lane_spec(self.hwss, path_pdfs.l0@, path_pdfs.l1@, path_pdfs.l2@, path_pdfs.l3@, 0),
                    )
                    &&& r.l1@ >= fx_mul(
                        fx_mul(throughput.l1@, le1),
                        mis_weight_lane_spec(self.hwss, path_pdfs.l0@, path_pdfs.l1@, path_pdfs.l2@, path_pdfs.l3@, 1),
                    )
                    &&& r.l2@ >= fx_mul(
                        fx_mul(throughput.l2@, le2),
                        mis_weight_lane_spec(self.hwss, path_pdfs.l0@, path_pdfs.l1@, path_pdfs.l2@, path_pdfs.l3@, 2),
                    )
                    &&& r.l3@ >= fx_mul(
                        fx_mul(throughput.l3@, le3),
                        mis_weight_lane_spec(self.hwss, path_pdfs.l0@, path_pdfs.l1@, path_pdfs.l2@, path_pdfs.l3@, 3),
                    )
                }))
            },
        decreases more_bounces,
    {
        if more_bounces == 0 {
            return SpectralSample::splat(Fx::zero());
        }
        let mut radiance = SpectralSample::splat(Fx::zero());

        let (prim_index, hit, _t) = match scene.intersection(&ray) {
            Some(h) => h,
            None => { return SpectralSample::splat(Fx::zero()) },
        };
        let prim = &scene.primitives[prim_index];

        let bsdf = match prim.get_material(&scene.materials) {
            Some(b) => *b,
            None => { return SpectralSample::splat(Fx::zero()) },
        };

        let weight = if self.hwss {
            balance_heuristic_1(path_pdfs)
        } else {
            PdfSet::splat(Fx::one())
        };
        proof {
            if path_pdfs.l0@ >= 0 && path_pdfs.l1@ >= 0 && path_pdfs.l2@ >= 0 && path_pdfs.l3@
                >= 0 {
                let s = fx_add(fx_add(fx_add(path_pdfs.l0@, path_pdfs.l1@), path_pdfs.l2@), path_pdfs.l3@);
                lemma_fx_div_nonneg(path_pdfs.l0@, s);
                lemma_fx_div_nonneg(path_pdfs.l1@, s);
                lemma_fx_div_nonneg(path_pdfs.l2@, s);
                lemma_fx_div_nonneg(path_pdfs.l3@, s);
            }
        }

        // emission where the path lands
        match prim.get_light(&scene.lights) {
            Some(light) => {
                let le = light.evaluate(wavelength);
                let term = throughput.mul(le).mul_pdf(weight);
                proof {
                    if scene.spectra_nonneg() && throughput.l0@ >= 0 && throughput.l1@ >= 0
                        && throughput.l2@ >= 0 && throughput.l3@ >= 0 && path_pdfs.l0@ >= 0
                        && path_pdfs.l1@ >= 0 && path_pdfs.l2@ >= 0 && path_pdfs.l3@ >= 0 {
                        lemma_fx_mul_nonneg(fx_mul(throughput.l0@, le.l0@), weight.l0@);
                        lemma_fx_mul_nonneg(fx_mul(throughput.l1@, le.l1@), weight.l1@);
                        lemma_fx_mul_nonneg(fx_mul(throughput.l2@, le.l2@), weight.l2@);
                        lemma_fx_mul_nonneg(fx_mul(throughput.l3@, le.l3@), weight.l3@);
                    }
                }
                radiance = radiance.add(term);
            },
            None => {},
        }

        // extend the path
        let shading_wo = hit.world_to_shading(ray.d().neg());
        let (sampled_wi, bsdf_values, bsdf_pdfs) = bsdf.sample(shading_wo, wavelength, sampler);
        let cos_theta = sampled_wi.cos_theta().abs();
        if bsdf_pdfs.hero().is_zero() || cos_theta.is_zero() {
            return radiance;
        }
        let world_wi = hit.shading_to_world(sampled_wi);
        let new_ray = Ray::spawn(hit.point, world_wi, hit.normal);

        proof {
            if scene.spectra_nonneg() && throughput.l0@ >= 0 && throughput.l1@ >= 0
                && throughput.l2@ >= 0 && throughput.l3@ >= 0 && path_pdfs.l0@ >= 0
                && path_pdfs.l1@ >= 0 && path_pdfs.l2@ >= 0 && path_pdfs.l3@ >= 0 {
                assert(crate::bsdf::bsdf_nonneg(bsdf));
                lemma_throughput_step(throughput.l0@, bsdf_values.l0@, cos_theta@, bsdf_pdfs.l0@);
                lemma_throughput_step(throughput.l1@, bsdf_values.l1@, cos_theta@, bsdf_pdfs.l0@);
                lemma_throughput_step(throughput.l2@, bsdf_values.l2@, cos_theta@, bsdf_pdfs.l0@);
                lemma_throughput_step(throughput.l3@, bsdf_values.l3@, cos_theta@, bsdf_pdfs.l0@);
                lemma_fx_mul_nonneg(path_pdfs.l0@, bsdf_pdfs.l0@);
                lemma_fx_mul_nonneg(path_pdfs.l1@, bsdf_pdfs.l1@);
                lemma_fx_mul_nonneg(path_pdfs.l2@, bsdf_pdfs.l2@);
                lemma_fx_mul_nonneg(path_pdfs.l3@, bsdf_pdfs.l3@);
            }
        }
        let recursive_value = self.radiance_recursive(
            scene,
            new_ray,
            wavelength,
            sampler,
            more_bounces - 1,
            throughput.mul(bsdf_values).scale(cos_theta).div_scalar(bsdf_pdfs.hero()),
            path_pdfs.mul(bsdf_pdfs),
        );
        let extension = recursive_value.mul(bsdf_values).scale(cos_theta).div_scalar(
            bsdf_pdfs.hero(),
        ).mul_pdf(weight);
        proof {
            if scene.lights@.len() == 0 {
                crate::fixed::lemma_fx_mul_zero_left(bsdf_values.l0@);
                crate::fixed::lemma_fx_mul_zero_left(bsdf_values.l1@);
                crate::fixed::lemma_fx_mul_zero_left(bsdf_values.l2@);
                crate::fixed::lemma_fx_mul_zero_left(bsdf_values.l3@);
                crate::fixed::lemma_fx_mul_zero_left(cos_theta@);
                crate::fixed::lemma_fx_div_zero_left(bsdf_pdfs.l0@);
                crate::fixed::lemma_fx_mul_zero_left(weight.l0@);
                crate::fixed::lemma_fx_mul_zero_left(weight.l1@);
                crate::fixed::lemma_fx_mul_zero_left(weight.l2@);
                crate::fixed::lemma_fx_mul_zero_left(weight.l3@);
                assert(extension.l0@ == 0 && extension.l1@ == 0 && extension.l2@ == 0
                    && extension.l3@ == 0);
            }
            if scene.spectra_nonneg() && throughput.l0@ >= 0 && throughput.l1@ >= 0
                && throughput.l2@ >= 0 && throughput.l3@ >= 0 && path_pdfs.l0@ >= 0
                && path_pdfs.l1@ >= 0 && path_pdfs.l2@ >= 0 && path_pdfs.l3@ >= 0 {
                assert(crate::bsdf::bsdf_nonneg(bsdf));
                lemma_throughput_step(recursive_value.l0@, bsdf_values.l0@, cos_theta@, bsdf_pdfs.l0@);
                lemma_throughput_step(recursive_value.l1@, bsdf_values.l1@, cos_theta@, bsdf_pdfs.l0@);
                lemma_throughput_step(recursive_value.l2@, bsdf_values.l2@, cos_theta@, bsdf_pdfs.l0@);
                lemma_throughput_step(recursive_value.l3@, bsdf_values.l3@, cos_theta@, bsdf_pdfs.l0@);
                lemma_fx_mul_nonneg(
                    fx_div(fx_mul(fx_mul(recursive_value.l0@, bsdf_values.l0@), cos_theta@), bsdf_pdfs.l0@),
                    weight.l0@,
                );
                lemma_fx_mul_nonneg(
                    fx_div(fx_mul(fx_mul(recursive_value.l1@, bsdf_values.l1@), cos_theta@), bsdf_pdfs.l0@),
                    weight.l1@,
                );
                lemma_fx_mul_nonneg(
                    fx_div(fx_mul(fx_mul(recursive_value.l2@, bsdf_values.l2@), cos_theta@), bsdf_pdfs.l0@),
                    weight.l2@,
                );
                lemma_fx_mul_nonneg(
                    fx_div(fx_mul(fx_mul(recursive_value.l3@, bsdf_values.l3@), cos_theta@), bsdf_pdfs.l0@),
                    weight.l3@,
                );
            }
        }
        radiance.add(extension)
    }
}

} // verus!
