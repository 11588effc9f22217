//! Surface reflectance models.
//!
//! Every BSDF answers `evaluate`, `pdf`, `sample` and `is_specular`;
//! directions are in the shading frame with the normal along z. The
//! agreement between what `sample` returns as its density set and what
//! `pdf` answers for the sampled direction is part of the contracts: for
//! the Lambertian both are exactly [`lambert_pdf_spec`] of the sampled
//! direction's cosine; the specular models are delta distributions and
//! answer zero.

use vstd::prelude::*;
use crate::fixed::{
    Fx,
    SCALE,
    fx_add,
    fx_sub,
    fx_mul,
    fx_div,
    fx_sqrt,
    clip,
    iabs,
    lemma_fx_mul_nonneg,
    lemma_fx_div_nonneg,
    lemma_fx_mul_unit_range,
};
use crate::math::Vec3;
use crate::sampling::Sampler;
use crate::spectrum::{
    Spectrum,
    SpectralSample,
    PdfSet,
    Wavelength,
    spectrum_eval_spec,
    spectrum_nonneg,
    lemma_spectrum_eval_nonneg,
    lemma_lane_in_domain,
    lane_spec,
    LAMBDA_SPAN_RAW,
    LAMBDA_MIN_RAW,
    LAMBDA_MAX_RAW,
};

verus! {

/// Pi in raw units.
pub const PI_RAW: i64 = 3_141_593;

/// The reference wavelength at which a dielectric has its nominal index
/// of refraction (550 nm), in raw units of nm.
pub const LAMBDA_REF_RAW: i64 = 550_000_000;

/// Lanes whose refracted direction cosine diverges from the hero's by more
/// than this are zeroed, so the hero alone carries their energy (raw).
pub const DISPERSION_CUTOFF_RAW: i64 = 2_000;

/// The cosine-weighted hemisphere density: `max(cos, 0) / pi`.
pub open spec fn lambert_pdf_spec(cos_theta: int) -> int {
    if cos_theta <= 0 {
        0
    } else {
        fx_div(cos_theta, PI_RAW as int)
    }
}

/// The cosine-weighted density is never negative.
pub proof fn lemma_lambert_pdf_nonneg(cos_theta: int)
    ensures
        lambert_pdf_spec(cos_theta) >= 0,
{
    if cos_theta > 0 {
        lemma_fx_div_nonneg(cos_theta, PI_RAW as int);
    }
}

/// A diffuse reflector with the given albedo spectrum.
#[derive(Clone, Copy, Debug)]
pub struct LambertianBsdf {
    pub albedo: Spectrum,
}

impl LambertianBsdf {
    /// Builds a Lambertian BSDF over an albedo spectrum.
    pub fn new(albedo: Spectrum) -> (r: LambertianBsdf)
        ensures
            r.albedo == albedo,
    {
        LambertianBsdf { albedo }
    }

    /// The reflectance density: the albedo over pi, at each lane.
    pub fn evaluate(&self, _wi: Vec3, _wo: Vec3, wavelength: Wavelength) -> (r: SpectralSample)
        requires
            wavelength.wf(),
        ensures
            r.l0@ == fx_div(spectrum_eval_spec(self.albedo, lane_spec(wavelength, 0)), PI_RAW as int),
            r.l1@ == fx_div(spectrum_eval_spec(self.albedo, lane_spec(wavelength, 1)), PI_RAW as int),
            r.l2@ == fx_div(spectrum_eval_spec(self.albedo, lane_spec(wavelength, 2)), PI_RAW as int),
            r.l3@ == fx_div(spectrum_eval_spec(self.albedo, lane_spec(wavelength, 3)), PI_RAW as int),
    {
        self.albedo.evaluate(wavelength).div_scalar(Fx::new(PI_RAW))
    }

    /// The density of [`LambertianBsdf::sample`] producing `wi`: the
    /// cosine-weighted density, identical at every lane.
    pub fn pdf(&self, wi: Vec3, _wo: Vec3, _wavelength: Wavelength) -> (r: PdfSet)
        ensures
            r.l0@ == lambert_pdf_spec(wi.z@),
            r.l1 == r.l0 && r.l2 == r.l0 && r.l3 == r.l0,
    {
        let p = if wi.z.le(Fx::zero()) {
            Fx::zero()
        } else {
            wi.z.div(Fx::new(PI_RAW))
        };
        PdfSet::splat(p)
    }

    /// Draws a cosine-weighted direction; the returned density set is
    /// exactly what [`LambertianBsdf::pdf`] answers for the returned
    /// direction, and the returned reflectance is exactly what
    /// [`LambertianBsdf::evaluate`] answers.
    pub fn sample(&self, _wo: Vec3, wavelength: Wavelength, sampler: &mut Sampler) -> (r: (
        Vec3,
        SpectralSample,
        PdfSet,
    ))
        requires
            wavelength.wf(),
            old(sampler).wf(),
        ensures
            final(sampler).wf(),
            r.0.z@ >= 0,
            r.2.l0@ == lambert_pdf_spec(r.0.z@),
            r.2.l1 == r.2.l0 && r.2.l2 == r.2.l0 && r.2.l3 == r.2.l0,
            r.1.l0@ == fx_div(
                spectrum_eval_spec(self.albedo, lane_spec(wavelength, 0)),
                PI_RAW as int,
            ),
            r.1.l1@ == fx_div(
                spectrum_eval_spec(self.albedo, lane_spec(wavelength, 1)),
                PI_RAW as int,
            ),
            r.1.l2@ == fx_div(
                spectrum_eval_spec(self.albedo, lane_spec(wavelength, 2)),
                PI_RAW as int,
            ),
            r.1.l3@ == fx_div(
                spectrum_eval_spec(self.albedo, lane_spec(wavelength, 3)),
                PI_RAW as int,
            ),
    {
        let u1 = sampler.gen_0_1();
        let u2 = sampler.gen_0_1();
        let rad = u1.sqrt();
        let z = Fx::one().sub(u1).sqrt();
        let wi = Vec3::new(rad.mul(u2.cos_turn()), rad.mul(u2.sin_turn()), z);
        let bsdf = self.evaluate(wi, wi, wavelength);
        let pdfs = self.pdf(wi, wi, wavelength);
        (wi, bsdf, pdfs)
    }

    /// A diffuse reflector is not a delta distribution.
    pub fn is_specular(&self) -> (r: bool)
        ensures
            r == false,
    {
        false
    }
}

/// A perfect mirror with the given reflectance tint.
#[derive(Clone, Copy, Debug)]
pub struct SpecularBsdf {
    pub reflected_color: Spectrum,
}

impl SpecularBsdf {
    /// Builds a perfect-specular BSDF over a reflectance spectrum.
    pub fn new(s: Spectrum) -> (r: SpecularBsdf)
        ensures
            r.reflected_color == s,
    {
        SpecularBsdf { reflected_color: s }
    }

    /// A delta distribution evaluates to zero off its own direction.
    pub fn evaluate(&self, _wi: Vec3, _wo: Vec3, _wavelength: Wavelength) -> (r: SpectralSample)
        ensures
            r.l0@ == 0 && r.l1@ == 0 && r.l2@ == 0 && r.l3@ == 0,
    {
        SpectralSample::splat(Fx::zero())
    }

    /// A delta distribution has no density against the solid-angle
    /// measure.
    pub fn pdf(&self, _wi: Vec3, _wo: Vec3, _wavelength: Wavelength) -> (r: PdfSet)
        ensures
            r.l0@ == 0 && r.l1@ == 0 && r.l2@ == 0 && r.l3@ == 0,
    {
        PdfSet::splat(Fx::zero())
    }

    /// Mirrors the outgoing direction about the normal: the Dirac factor
    /// is folded so that `bsdf * cos / pdf.hero()` is the tint exactly.
    pub fn sample(&self, wo: Vec3, wavelength: Wavelength, sampler: &mut Sampler) -> (r: (
        Vec3,
        SpectralSample,
        PdfSet,
    ))
        requires
            wavelength.wf(),
        ensures
            *final(sampler) == *old(sampler),
            r.0.x@ == clip(-wo.x@) && r.0.y@ == clip(-wo.y@) && r.0.z == wo.z,
            r.1.l0@ == fx_div(
                spectrum_eval_spec(self.reflected_color, lane_spec(wavelength, 0)),
                clip(iabs(wo.z@)),
            ),
            r.1.l1@ == fx_div(
                spectrum_eval_spec(self.reflected_color, lane_spec(wavelength, 1)),
                clip(iabs(wo.z@)),
            ),
            r.1.l2@ == fx_div(
                spectrum_eval_spec(self.reflected_color, lane_spec(wavelength, 2)),
                clip(iabs(wo.z@)),
            ),
            r.1.l3@ == fx_div(
                spectrum_eval_spec(self.reflected_color, lane_spec(wavelength, 3)),
                clip(iabs(wo.z@)),
            ),
            r.2.l0@ == SCALE as int && r.2.l1@ == SCALE as int && r.2.l2@ == SCALE as int
                && r.2.l3@ == SCALE as int,
    {
        let wi = Vec3::new(wo.x.neg(), wo.y.neg(), wo.z);
        let bsdf = self.reflected_color.evaluate(wavelength).div_scalar(wi.z.abs());
        (wi, bsdf, PdfSet::splat(Fx::one()))
    }

    /// A mirror is a delta distribution.
    pub fn is_specular(&self) -> (r: bool)
        ensures
            r == true,
    {
        true
    }
}

/// A smooth dielectric with reflectance and transmittance tints, a nominal
/// index of refraction and a linear dispersion coefficient.
#[derive(Clone, Copy, Debug)]
pub struct FresnelBsdf {
    pub reflected_color: Spectrum,
    pub transmitted_color: Spectrum,
    pub ior: Fx,
    pub dispersion: Fx,
}

/// The wavelength-dependent index of refraction: the nominal index plus
/// the dispersion coefficient scaled by the offset from the reference
/// wavelength over the domain width.
pub open spec fn ior_at_spec(b: FresnelBsdf, lam: int) -> int {
    fx_add(
        b.ior@,
        fx_mul(b.dispersion@, fx_div(fx_sub(LAMBDA_REF_RAW as int, lam), LAMBDA_SPAN_RAW as int)),
    )
}

/// The Fresnel reflectance of the dielectric at one lane: the Schlick
/// approximation, forced to one under total internal reflection.
pub open spec fn fresnel_f_spec(b: FresnelBsdf, wo_z: int, lam: int) -> int {
    let n = ior_at_spec(b, lam);
    let ci = iabs(wo_z);
    let cosi = if ci > SCALE as int {
        SCALE as int
    } else {
        ci
    };
    let eta = if wo_z >= 0 {
        fx_div(SCALE as int, n)
    } else {
        n
    };
    let sin2t = fx_mul(fx_mul(eta, eta), fx_sub(SCALE as int, fx_mul(cosi, cosi)));
    if sin2t >= SCALE as int {
        SCALE as int
    } else {
        let f0r = fx_div(fx_sub(n, SCALE as int), fx_add(n, SCALE as int));
        let f0 = fx_mul(f0r, f0r);
        let omc = fx_sub(SCALE as int, cosi);
        let p5 = fx_mul(fx_mul(fx_mul(fx_mul(omc, omc), omc), omc), omc);
        fx_add(f0, fx_mul(fx_sub(SCALE as int, f0), p5))
    }
}

/// The cosine of the refracted direction at one lane (zero under total
/// internal reflection).
pub open spec fn refract_cos_spec(b: FresnelBsdf, wo_z: int, lam: int) -> int {
    let n = ior_at_spec(b, lam);
    let ci = iabs(wo_z);
    let cosi = if ci > SCALE as int {
        SCALE as int
    } else {
        ci
    };
    let eta = if wo_z >= 0 {
        fx_div(SCALE as int, n)
    } else {
        n
    };
    let sin2t = fx_mul(fx_mul(eta, eta), fx_sub(SCALE as int, fx_mul(cosi, cosi)));
    fx_sqrt(fx_sub(SCALE as int, sin2t))
}

/// What [`FresnelBsdf::sample`] returns when it chose reflection: the
/// mirrored direction, one lane density equal to each lane's Fresnel
/// reflectance, and each lane's reflectance tinted and folded by the
/// cosine.
pub open spec fn fresnel_reflect_ensures(
    b: FresnelBsdf,
    wo: Vec3,
    wavelength: Wavelength,
    r: (Vec3, SpectralSample, PdfSet),
) -> bool {
    let f0 = fresnel_f_spec(b, wo.z@, lane_spec(wavelength, 0));
    let f1 = fresnel_f_spec(b, wo.z@, lane_spec(wavelength, 1));
    let f2 = fresnel_f_spec(b, wo.z@, lane_spec(wavelength, 2));
    let f3 = fresnel_f_spec(b, wo.z@, lane_spec(wavelength, 3));
    let inv_cos = clip(iabs(wo.z@));
    &&& r.0.x@ == clip(-wo.x@) && r.0.y@ == clip(-wo.y@) && r.0.z == wo.z
    &&& r.2.l0@ == f0 && r.2.l1@ == f1 && r.2.l2@ == f2 && r.2.l3@ == f3
    &&& r.1.l0@ == fx_div(
        fx_mul(f0, spectrum_eval_spec(b.reflected_color, lane_spec(wavelength, 0))),
        inv_cos,
    )
    &&& r.1.l1@ == fx_div(
        fx_mul(f1, spectrum_eval_spec(b.reflected_color, lane_spec(wavelength, 1))),
        inv_cos,
    )
    &&& r.1.l2@ == fx_div(
        fx_mul(f2, spectrum_eval_spec(b.reflected_color, lane_spec(wavelength, 2))),
        inv_cos,
    )
    &&& r.1.l3@ == fx_div(
        fx_mul(f3, spectrum_eval_spec(b.reflected_color, lane_spec(wavelength, 3))),
        inv_cos,
    )
}

/// What [`FresnelBsdf::sample`] returns when it chose refraction: the hero
/// lane's Snell direction, one lane density equal to one minus each lane's
/// Fresnel reflectance, and zero reflectance on every lane whose own
/// refracted cosine diverges from the hero's beyond the cutoff — the
/// mechanism that separates dispersion spectra.
pub open spec fn fresnel_refract_ensures(
    b: FresnelBsdf,
    wo: Vec3,
    wavelength: Wavelength,
    r: (Vec3, SpectralSample, PdfSet),
) -> bool {
    let f0 = fresnel_f_spec(b, wo.z@, lane_spec(wavelength, 0));
    let f1 = fresnel_f_spec(b, wo.z@, lane_spec(wavelength, 1));
    let f2 = fresnel_f_spec(b, wo.z@, lane_spec(wavelength, 2));
    let f3 = fresnel_f_spec(b, wo.z@, lane_spec(wavelength, 3));
    let c0 = refract_cos_spec(b, wo.z@, lane_spec(wavelength, 0));
    let c1 = refract_cos_spec(b, wo.z@, lane_spec(wavelength, 1));
    let c2 = refract_cos_spec(b, wo.z@, lane_spec(wavelength, 2));
    let c3 = refract_cos_spec(b, wo.z@, lane_spec(wavelength, 3));
    let eta = if wo.z@ >= 0 {
        fx_div(SCALE as int, ior_at_spec(b, lane_spec(wavelength, 0)))
    } else {
        ior_at_spec(b, lane_spec(wavelength, 0))
    };
    &&& r.0.x@ == fx_mul(clip(-wo.x@), eta)
    &&& r.0.y@ == fx_mul(clip(-wo.y@), eta)
    &&& r.0.z@ == (if wo.z@ >= 0 {
        clip(-c0)
    } else {
        c0
    })
    &&& r.2.l0@ == fx_sub(SCALE as int, f0) && r.2.l1@ == fx_sub(SCALE as int, f1) && r.2.l2@
        == fx_sub(SCALE as int, f2) && r.2.l3@ == fx_sub(SCALE as int, f3)
    &&& r.1.l0@ == fx_div(
        fx_mul(fx_sub(SCALE as int, f0), spectrum_eval_spec(b.transmitted_color, lane_spec(wavelength, 0))),
        clip(iabs(r.0.z@)),
    )
    &&& r.1.l1@ == (if iabs(fx_sub(c1, c0)) > DISPERSION_CUTOFF_RAW {
        0int
    } else {
        fx_div(
            fx_mul(fx_sub(SCALE as int, f1), spectrum_eval_spec(b.transmitted_color, lane_spec(wavelength, 1))),
            clip(iabs(r.0.z@)),
        )
    })
    &&& r.1.l2@ == (if iabs(fx_sub(c2, c0)) > DISPERSION_CUTOFF_RAW {
        0int
    } else {
        fx_div(
            fx_mul(fx_sub(SCALE as int, f2), spectrum_eval_spec(b.transmitted_color, lane_spec(wavelength, 2))),
            clip(iabs(r.0.z@)),
        )
    })
    &&& r.1.l3@ == (if iabs(fx_sub(c3, c0)) > DISPERSION_CUTOFF_RAW {
        0int
    } else {
        fx_div(
            fx_mul(fx_sub(SCALE as int, f3), spectrum_eval_spec(b.transmitted_color, lane_spec(wavelength, 3))),
            clip(iabs(r.0.z@)),
        )
    })
}

/// A material is physically admissible when its spectra are nonnegative
/// and, for a dielectric, its index of refraction stays nonnegative over
/// the wavelength domain.
pub open spec fn bsdf_nonneg(b: Bsdf) -> bool {
    match b {
        Bsdf::Lambertian(l) => spectrum_nonneg(l.albedo),
        Bsdf::Specular(s) => spectrum_nonneg(s.reflected_color),
        Bsdf::Fresnel(f) => spectrum_nonneg(f.reflected_color) && spectrum_nonneg(
            f.transmitted_color,
        ) && forall|lam: int|
            LAMBDA_MIN_RAW <= lam < LAMBDA_MAX_RAW ==> #[trigger] ior_at_spec(f, lam) >= 0,
    }
}

/// The Fresnel reflectance is a probability: it lies in the unit range
/// whenever the index of refraction at the wavelength is nonnegative.
pub proof fn lemma_fresnel_f_range(b: FresnelBsdf, wo_z: int, lam: int)
    requires
        ior_at_spec(b, lam) >= 0,
    ensures
        0 <= fresnel_f_spec(b, wo_z, lam) <= SCALE as int,
{
    let n = ior_at_spec(b, lam);
    let ci = iabs(wo_z);
    let cosi = if ci > SCALE as int {
        SCALE as int
    } else {
        ci
    };
    let eta = if wo_z >= 0 {
        fx_div(SCALE as int, n)
    } else {
        n
    };
    let sin2t = fx_mul(fx_mul(eta, eta), fx_sub(SCALE as int, fx_mul(cosi, cosi)));
    if sin2t < SCALE as int {
        let num = fx_sub(n, SCALE as int);
        let den = fx_add(n, SCALE as int);
        assert(iabs(num) <= den);
        let f0r = fx_div(num, den);
        assert(iabs(num) * (SCALE as int) <= den * (SCALE as int)) by (nonlinear_arith)
            requires
                iabs(num) <= den,
        ;
        vstd::arithmetic::div_mod::lemma_div_is_ordered(
            iabs(num) * (SCALE as int),
            den * (SCALE as int),
            den,
        );
        vstd::arithmetic::div_mod::lemma_div_multiples_vanish(SCALE as int, den);
        vstd::arithmetic::div_mod::lemma_div_pos_is_pos(iabs(num) * (SCALE as int), den);
        assert(0 <= iabs(num) * (SCALE as int)) by (nonlinear_arith)
            requires
                iabs(num) >= 0,
        ;
        assert(iabs(f0r) <= SCALE as int);
        let f0 = fx_mul(f0r, f0r);
        assert(iabs(f0r) * iabs(f0r) <= iabs(f0r) * (SCALE as int)) by (nonlinear_arith)
            requires
                0 <= iabs(f0r) <= SCALE as int,
        ;
        assert(iabs(f0r) * (SCALE as int) <= (SCALE as int) * (SCALE as int)) by (nonlinear_arith)
            requires
                0 <= iabs(f0r) <= SCALE as int,
        ;
        vstd::arithmetic::div_mod::lemma_div_is_ordered(
            iabs(f0r) * iabs(f0r),
            (SCALE as int) * (SCALE as int),
            SCALE as int,
        );
        vstd::arithmetic::div_mod::lemma_div_multiples_vanish(SCALE as int, SCALE as int);
        vstd::arithmetic::div_mod::lemma_div_pos_is_pos(iabs(f0r) * iabs(f0r), SCALE as int);
        assert(0 <= iabs(f0r) * iabs(f0r)) by (nonlinear_arith);
        assert(0 <= f0 <= SCALE as int);
        let omc = fx_sub(SCALE as int, cosi);
        assert(0 <= omc <= SCALE as int);
        let p2 = fx_mul(omc, omc);
        lemma_fx_mul_unit_range(omc, omc);
        let p3 = fx_mul(p2, omc);
        lemma_fx_mul_unit_range(p2, omc);
        let p4 = fx_mul(p3, omc);
        lemma_fx_mul_unit_range(p3, omc);
        let p5 = fx_mul(p4, omc);
        lemma_fx_mul_unit_range(p4, omc);
        lemma_fx_mul_unit_range(fx_sub(SCALE as int, f0), p5);
    }
}

/// A dielectric whose nominal index dominates its dispersion magnitude
/// keeps a nonnegative index over the whole wavelength domain: the
/// normalized wavelength offset has magnitude at most one half, so the
/// dispersion term's magnitude stays below the nominal index.
pub proof fn lemma_dispersive_ior_nonneg(f: FresnelBsdf)
    requires
        f.ior@ >= 0,
        iabs(f.dispersion@) <= f.ior@,
    ensures
        forall|lam: int|
            LAMBDA_MIN_RAW <= lam < LAMBDA_MAX_RAW ==> #[trigger] ior_at_spec(f, lam) >= 0,
{
    assert forall|lam: int|
        LAMBDA_MIN_RAW <= lam < LAMBDA_MAX_RAW implies #[trigger] ior_at_spec(f, lam) >= 0 by {
        let off = fx_sub(LAMBDA_REF_RAW as int, lam);
        assert(iabs(off) <= 170_000_000);
        crate::fixed::lemma_fx_div_half_mag(off, LAMBDA_SPAN_RAW as int);
        let unit = fx_div(off, LAMBDA_SPAN_RAW as int);
        crate::fixed::lemma_fx_mul_mag_le(f.dispersion@, unit);
        let term = fx_mul(f.dispersion@, unit);
        assert(iabs(term) <= f.ior@);
        assert(f.ior@ + term >= 0);
    }
}

/// Whatever branch a dielectric sample took, an admissible dielectric
/// hands back nonnegative reflectances and densities on every lane.
pub proof fn lemma_fresnel_sample_nonneg(
    b: FresnelBsdf,
    wo: Vec3,
    wavelength: Wavelength,
    r: (Vec3, SpectralSample, PdfSet),
)
    requires
        wavelength.wf(),
        spectrum_nonneg(b.reflected_color),
        spectrum_nonneg(b.transmitted_color),
        forall|lam: int|
            LAMBDA_MIN_RAW <= lam < LAMBDA_MAX_RAW ==> #[trigger] ior_at_spec(b, lam) >= 0,
        fresnel_reflect_ensures(b, wo, wavelength, r) || fresnel_refract_ensures(
            b,
            wo,
            wavelength,
            r,
        ),
    ensures
        r.1.l0@ >= 0 && r.1.l1@ >= 0 && r.1.l2@ >= 0 && r.1.l3@ >= 0,
        r.2.l0@ >= 0 && r.2.l1@ >= 0 && r.2.l2@ >= 0 && r.2.l3@ >= 0,
{
    lemma_lane_in_domain(wavelength, 0);
    lemma_lane_in_domain(wavelength, 1);
    lemma_lane_in_domain(wavelength, 2);
    lemma_lane_in_domain(wavelength, 3);
    lemma_fresnel_f_range(b, wo.z@, lane_spec(wavelength, 0));
    lemma_fresnel_f_range(b, wo.z@, lane_spec(wavelength, 1));
    lemma_fresnel_f_range(b, wo.z@, lane_spec(wavelength, 2));
    lemma_fresnel_f_range(b, wo.z@, lane_spec(wavelength, 3));
    lemma_spectrum_eval_nonneg(b.reflected_color, lane_spec(wavelength, 0));
    lemma_spectrum_eval_nonneg(b.reflected_color, lane_spec(wavelength, 1));
    lemma_spectrum_eval_nonneg(b.reflected_color, lane_spec(wavelength, 2));
    lemma_spectrum_eval_nonneg(b.reflected_color, lane_spec(wavelength, 3));
    lemma_spectrum_eval_nonneg(b.transmitted_color, lane_spec(wavelength, 0));
    lemma_spectrum_eval_nonneg(b.transmitted_color, lane_spec(wavelength, 1));
    lemma_spectrum_eval_nonneg(b.transmitted_color, lane_spec(wavelength, 2));
    lemma_spectrum_eval_nonneg(b.transmitted_color, lane_spec(wavelength, 3));
    if fresnel_reflect_ensures(b, wo, wavelength, r) {
        let inv = clip(iabs(wo.z@));
        lemma_fx_mul_nonneg(
            fresnel_f_spec(b, wo.z@, lane_spec(wavelength, 0)),
            spectrum_eval_spec(b.reflected_color, lane_spec(wavelength, 0)),
        );
        lemma_fx_mul_nonneg(
            fresnel_f_spec(b, wo.z@, lane_spec(wavelength, 1)),
            spectrum_eval_spec(b.reflected_color, lane_spec(wavelength, 1)),
        );
        lemma_fx_mul_nonneg(
            fresnel_f_spec(b, wo.z@, lane_spec(wavelength, 2)),
            spectrum_eval_spec(b.reflected_color, lane_spec(wavelength, 2)),
        );
        lemma_fx_mul_nonneg(
            fresnel_f_spec(b, wo.z@, lane_spec(wavelength, 3)),
            spectrum_eval_spec(b.reflected_color, lane_spec(wavelength, 3)),
        );
        lemma_fx_div_nonneg(
            fx_mul(
                fresnel_f_spec(b, wo.z@, lane_spec(wavelength, 0)),
                spectrum_eval_spec(b.reflected_color, lane_spec(wavelength, 0)),
            ),
            inv,
        );
        lemma_fx_div_nonneg(
            fx_mul(
                fresnel_f_spec(b, wo.z@, lane_spec(wavelength, 1)),
                spectrum_eval_spec(b.reflected_color, lane_spec(wavelength, 1)),
            ),
            inv,
        );
        lemma_fx_div_nonneg(
            fx_mul(
                fresnel_f_spec(b, wo.z@, lane_spec(wavelength, 2)),
                spectrum_eval_spec(b.reflected_color, lane_spec(wavelength, 2)),
            ),
            inv,
        );
        lemma_fx_div_nonneg(
            fx_mul(
                fresnel_f_spec(b, wo.z@, lane_spec(wavelength, 3)),
                spectrum_eval_spec(b.reflected_color, lane_spec(wavelength, 3)),
            ),
            inv,
        );
    } else {
        let inv = clip(iabs(r.0.z@));
        lemma_fx_mul_nonneg(
            fx_sub(SCALE as int, fresnel_f_spec(b, wo.z@, lane_spec(wavelength, 0))),
            spectrum_eval_spec(b.transmitted_color, lane_spec(wavelength, 0)),
        );
        lemma_fx_mul_nonneg(
            fx_sub(SCALE as int, fresnel_f_spec(b, wo.z@, lane_spec(wavelength, 1))),
            spectrum_eval_spec(b.transmitted_color, lane_spec(wavelength, 1)),
        );
        lemma_fx_mul_nonneg(
            fx_sub(SCALE as int, fresnel_f_spec(b, wo.z@, lane_spec(wavelength, 2))),
            spectrum_eval_spec(b.transmitted_color, lane_spec(wavelength, 2)),
        );
        lemma_fx_mul_nonneg(
            fx_sub(SCALE as int, fresnel_f_spec(b, wo.z@, lane_spec(wavelength, 3))),
            spectrum_eval_spec(b.transmitted_color, lane_spec(wavelength, 3)),
        );
        lemma_fx_div_nonneg(
            fx_mul(
                fx_sub(SCALE as int, fresnel_f_spec(b, wo.z@, lane_spec(wavelength, 0))),
                spectrum_eval_spec(b.transmitted_color, lane_spec(wavelength, 0)),
            ),
            inv,
        );
        lemma_fx_div_nonneg(
            fx_mul(
                fx_sub(SCALE as int, fresnel_f_spec(b, wo.z@, lane_spec(wavelength, 1))),
                spectrum_eval_spec(b.transmitted_color, lane_spec(wavelength, 1)),
            ),
            inv,
        );
        lemma_fx_div_nonneg(
            fx_mul(
                fx_sub(SCALE as int, fresnel_f_spec(b, wo.z@, lane_spec(wavelength, 2))),
                spectrum_eval_spec(b.transmitted_color, lane_spec(wavelength, 2)),
            ),
            inv,
        );
        lemma_fx_div_nonneg(
            fx_mul(
                fx_sub(SCALE as int, fresnel_f_spec(b, wo.z@, lane_spec(wavelength, 3))),
                spectrum_eval_spec(b.transmitted_color, lane_spec(wavelength, 3)),
            ),
            inv,
        );
    }
}

impl FresnelBsdf {
    /// Builds a smooth dielectric.
    pub fn new(reflected: Spectrum, transmitted: Spectrum, ior: Fx, dispersion: Fx) -> (r:
        FresnelBsdf)
        ensures
            r.reflected_color == reflected,
            r.transmitted_color == transmitted,
            r.ior == ior,
            r.dispersion == dispersion,
    {
        FresnelBsdf { reflected_color: reflected, transmitted_color: transmitted, ior, dispersion }
    }

    /// The wavelength-dependent index of refraction at one wavelength.
    pub fn ior_at(&self, lambda: Fx) -> (r: Fx)
        ensures
            r@ == ior_at_spec(*self, lambda@),
    {
        self.ior.add(
            self.dispersion.mul(
                Fx::new(LAMBDA_REF_RAW).sub(lambda).div(Fx::new(LAMBDA_SPAN_RAW)),
            ),
        )
    }

    /// The Fresnel reflectance and refracted cosine at one lane.
    fn fresnel(&self, wo_z: Fx, lambda: Fx) -> (r: (Fx, Fx))
        ensures
            r.0@ == fresnel_f_spec(*self, wo_z@, lambda@),
            r.1@ == refract_cos_spec(*self, wo_z@, lambda@),
    {
        let n = self.ior_at(lambda);
        let cosi = wo_z.abs().min(Fx::one());
        let eta = if Fx::zero().le(wo_z) {
            Fx::one().div(n)
        } else {
            n
        };
        let sin2t = eta.mul(eta).mul(Fx::one().sub(cosi.mul(cosi)));
        let cost = Fx::one().sub(sin2t).sqrt();
        if Fx::one().le(sin2t) {
            (Fx::one(), cost)
        } else {
            let f0r = n.sub(Fx::one()).div(n.add(Fx::one()));
            let f0 = f0r.mul(f0r);
            let omc = Fx::one().sub(cosi);
            let p5 = omc.mul(omc).mul(omc).mul(omc).mul(omc);
            let f = f0.add(Fx::one().sub(f0).mul(p5));
            (f, cost)
        }
    }

    /// A delta distribution evaluates to zero off its own directions.
    pub fn evaluate(&self, _wi: Vec3, _wo: Vec3, _wavelength: Wavelength) -> (r: SpectralSample)
        ensures
            r.l0@ == 0 && r.l1@ == 0 && r.l2@ == 0 && r.l3@ == 0,
    {
        SpectralSample::splat(Fx::zero())
    }

    /// A delta distribution has no density against the solid-angle
    /// measure.
    pub fn pdf(&self, _wi: Vec3, _wo: Vec3, _wavelength: Wavelength) -> (r: PdfSet)
        ensures
            r.l0@ == 0 && r.l1@ == 0 && r.l2@ == 0 && r.l3@ == 0,
    {
        PdfSet::splat(Fx::zero())
    }

    /// Chooses reflection with the hero lane's Fresnel probability, else
    /// refraction through the hero lane's Snell direction. On reflection
    /// the density lane is the lane's Fresnel reflectance; on refraction
    /// it is one minus it, and lanes whose refracted cosine diverges from
    /// the hero's beyond the cutoff carry zero reflectance, which makes
    /// the hero alone carry their energy (the dispersion mechanism).
    pub fn sample(&self, wo: Vec3, wavelength: Wavelength, sampler: &mut Sampler) -> (r: (
        Vec3,
        SpectralSample,
        PdfSet,
    ))
        requires
            wavelength.wf(),
            old(sampler).wf(),
        ensures
            final(sampler).wf(),
            fresnel_reflect_ensures(*self, wo, wavelength, r) || fresnel_refract_ensures(
                *self,
                wo,
                wavelength,
                r,
            ),
    {
        let f0 = self.fresnel(wo.z, wavelength.lane(0));
        let f1 = self.fresnel(wo.z, wavelength.lane(1));
        let f2 = self.fresnel(wo.z, wavelength.lane(2));
        let f3 = self.fresnel(wo.z, wavelength.lane(3));
        let u = sampler.gen_0_1();
        if u.lt(f0.0) {
            // reflect
            let wi = Vec3::new(wo.x.neg(), wo.y.neg(), wo.z);
            let tint = self.reflected_color.evaluate(wavelength);
            let inv_cos = wi.z.abs();
            let bsdf = SpectralSample::new(
                f0.0.mul(tint.l0).div(inv_cos),
                f1.0.mul(tint.l1).div(inv_cos),
                f2.0.mul(tint.l2).div(inv_cos),
                f3.0.mul(tint.l3).div(inv_cos),
            );
            let pdfs = PdfSet::new(f0.0, f1.0, f2.0, f3.0);
            (wi, bsdf, pdfs)
        } else {
            // refract along the hero lane's Snell direction
            let n0 = self.ior_at(wavelength.lane(0));
            let eta = if Fx::zero().le(wo.z) {
                Fx::one().div(n0)
            } else {
                n0
            };
            let zsign = if Fx::zero().le(wo.z) {
                f0.1.neg()
            } else {
                f0.1
            };
            let wi = Vec3::new(wo.x.neg().mul(eta), wo.y.neg().mul(eta), zsign);
            let tint = self.transmitted_color.evaluate(wavelength);
            let inv_cos = wi.z.abs();
            let cutoff = Fx::new(DISPERSION_CUTOFF_RAW);
            let b0 = Fx::one().sub(f0.0).mul(tint.l0).div(inv_cos);
            let b1 = if f1.1.sub(f0.1).abs().le(cutoff) {
                Fx::one().sub(f1.0).mul(tint.l1).div(inv_cos)
            } else {
                Fx::zero()
            };
            let b2 = if f2.1.sub(f0.1).abs().le(cutoff) {
                Fx::one().sub(f2.0).mul(tint.l2).div(inv_cos)
            } else {
                Fx::zero()
            };
            let b3 = if f3.1.sub(f0.1).abs().le(cutoff) {
                Fx::one().sub(f3.0).mul(tint.l3).div(inv_cos)
            } else {
                Fx::zero()
            };
            let bsdf = SpectralSample::new(b0, b1, b2, b3);
            let pdfs = PdfSet::new(
                Fx::one().sub(f0.0),
                Fx::one().sub(f1.0),
                Fx::one().sub(f2.0),
                Fx::one().sub(f3.0),
            );
            (wi, bsdf, pdfs)
        }
    }

    /// A smooth dielectric is a delta distribution.
    pub fn is_specular(&self) -> (r: bool)
        ensures
            r == true,
    {
        true
    }
}

/// A material: one of the closed set of BSDF variants.
#[derive(Clone, Copy, Debug)]
pub enum Bsdf {
    Lambertian(LambertianBsdf),
    Specular(SpecularBsdf),
    Fresnel(FresnelBsdf),
}

impl Bsdf {
    /// The reflectance density toward `wi` given `wo`; zero for the delta
    /// distributions.
    pub fn evaluate(&self, wi: Vec3, wo: Vec3, wavelength: Wavelength) -> (r: SpectralSample)
        requires
            wavelength.wf(),
        ensures
            self matches Bsdf::Lambertian(l) ==> (r.l0@ == fx_div(
                spectrum_eval_spec(l.albedo, lane_spec(wavelength, 0)),
                PI_RAW as int,
            ) && r.l1@ == fx_div(
                spectrum_eval_spec(l.albedo, lane_spec(wavelength, 1)),
                PI_RAW as int,
            ) && r.l2@ == fx_div(
                spectrum_eval_spec(l.albedo, lane_spec(wavelength, 2)),
                PI_RAW as int,
            ) && r.l3@ == fx_div(
                spectrum_eval_spec(l.albedo, lane_spec(wavelength, 3)),
                PI_RAW as int,
            )),
            !(self is Lambertian) ==> (r.l0@ == 0 && r.l1@ == 0 && r.l2@ == 0 && r.l3@ == 0),
            bsdf_nonneg(*self) ==> (r.l0@ >= 0 && r.l1@ >= 0 && r.l2@ >= 0 && r.l3@ >= 0),
    {
        let r = match self {
            Bsdf::Lambertian(l) => l.evaluate(wi, wo, wavelength),
            Bsdf::Specular(s) => s.evaluate(wi, wo, wavelength),
            Bsdf::Fresnel(f) => f.evaluate(wi, wo, wavelength),
        };
        proof {
            if bsdf_nonneg(*self) {
                match self {
                    Bsdf::Lambertian(l) => {
                        lemma_spectrum_eval_nonneg(l.albedo, lane_spec(wavelength, 0));
                        lemma_spectrum_eval_nonneg(l.albedo, lane_spec(wavelength, 1));
                        lemma_spectrum_eval_nonneg(l.albedo, lane_spec(wavelength, 2));
                        lemma_spectrum_eval_nonneg(l.albedo, lane_spec(wavelength, 3));
                        lemma_fx_div_nonneg(
                            spectrum_eval_spec(l.albedo, lane_spec(wavelength, 0)),
                            PI_RAW as int,
                        );
                        lemma_fx_div_nonneg(
                            spectrum_eval_spec(l.albedo, lane_spec(wavelength, 1)),
                            PI_RAW as int,
                        );
                        lemma_fx_div_nonneg(
                            spectrum_eval_spec(l.albedo, lane_spec(wavelength, 2)),
                            PI_RAW as int,
                        );
                        lemma_fx_div_nonneg(
                            spectrum_eval_spec(l.albedo, lane_spec(wavelength, 3)),
                            PI_RAW as int,
                        );
                    },
                    _ => {},
                }
            }
        }
        r
    }

    /// The density of [`Bsdf::sample`] producing `wi`; zero for the delta
    /// distributions.
    pub fn pdf(&self, wi: Vec3, wo: Vec3, wavelength: Wavelength) -> (r: PdfSet)
        ensures
            self matches Bsdf::Lambertian(l) ==> (r.l0@ == lambert_pdf_spec(wi.z@) && r.l1 == r.l0
                && r.l2 == r.l0 && r.l3 == r.l0),
            !(self is Lambertian) ==> (r.l0@ == 0 && r.l1@ == 0 && r.l2@ == 0 && r.l3@ == 0),
            r.l0@ >= 0 && r.l1@ >= 0 && r.l2@ >= 0 && r.l3@ >= 0,
    {
        let r = match self {
            Bsdf::Lambertian(l) => l.pdf(wi, wo, wavelength),
            Bsdf::Specular(s) => s.pdf(wi, wo, wavelength),
            Bsdf::Fresnel(f) => f.pdf(wi, wo, wavelength),
        };
        proof {
            lemma_lambert_pdf_nonneg(wi.z@);
        }
        r
    }

    /// Draws a direction, its reflectance and its density set. For the
    /// Lambertian, the density set equals [`Bsdf::pdf`] of the returned
    /// direction exactly.
    pub fn sample(&self, wo: Vec3, wavelength: Wavelength, sampler: &mut Sampler) -> (r: (
        Vec3,
        SpectralSample,
        PdfSet,
    ))
        requires
            wavelength.wf(),
            old(sampler).wf(),
        ensures
            final(sampler).wf(),
            self matches Bsdf::Lambertian(l) ==> (r.0.z@ >= 0 && r.2.l0@ == lambert_pdf_spec(
                r.0.z@,
            ) && r.2.l1 == r.2.l0 && r.2.l2 == r.2.l0 && r.2.l3 == r.2.l0),
            self is Specular ==> (r.0.x@ == clip(-wo.x@) && r.0.y@ == clip(-wo.y@) && r.0.z == wo.z
                && r.2.l0@ == SCALE as int && r.2.l1@ == SCALE as int && r.2.l2@ == SCALE as int
                && r.2.l3@ == SCALE as int),
            self matches Bsdf::Fresnel(f) ==> (fresnel_reflect_ensures(*f, wo, wavelength, r)
                || fresnel_refract_ensures(*f, wo, wavelength, r)),
            bsdf_nonneg(*self) ==> (r.1.l0@ >= 0 && r.1.l1@ >= 0 && r.1.l2@ >= 0 && r.1.l3@ >= 0
                && r.2.l0@ >= 0 && r.2.l1@ >= 0 && r.2.l2@ >= 0 && r.2.l3@ >= 0),
    {
        let r = match self {
            Bsdf::Lambertian(l) => l.sample(wo, wavelength, sampler),
            Bsdf::Specular(s) => s.sample(wo, wavelength, sampler),
            Bsdf::Fresnel(f) => f.sample(wo, wavelength, sampler),
        };
        proof {
            if bsdf_nonneg(*self) {
                match self {
                    Bsdf::Lambertian(l) => {
                        lemma_lambert_pdf_nonneg(r.0.z@);
                        lemma_spectrum_eval_nonneg(l.albedo, lane_spec(wavelength, 0));
                        lemma_spectrum_eval_nonneg(l.albedo, lane_spec(wavelength, 1));
                        lemma_spectrum_eval_nonneg(l.albedo, lane_spec(wavelength, 2));
                        lemma_spectrum_eval_nonneg(l.albedo, lane_spec(wavelength, 3));
                        lemma_fx_div_nonneg(
                            spectrum_eval_spec(l.albedo, lane_spec(wavelength, 0)),
                            PI_RAW as int,
                        );
                        lemma_fx_div_nonneg(
                            spectrum_eval_spec(l.albedo, lane_spec(wavelength, 1)),
                            PI_RAW as int,
                        );
                        lemma_fx_div_nonneg(
                            spectrum_eval_spec(l.albedo, lane_spec(wavelength, 2)),
                            PI_RAW as int,
                        );
                        lemma_fx_div_nonneg(
                            spectrum_eval_spec(l.albedo, lane_spec(wavelength, 3)),
                            PI_RAW as int,
                        );
                    },
                    Bsdf::Specular(sp) => {
                        lemma_spectrum_eval_nonneg(sp.reflected_color, lane_spec(wavelength, 0));
                        lemma_spectrum_eval_nonneg(sp.reflected_color, lane_spec(wavelength, 1));
                        lemma_spectrum_eval_nonneg(sp.reflected_color, lane_spec(wavelength, 2));
                        lemma_spectrum_eval_nonneg(sp.reflected_color, lane_spec(wavelength, 3));
                        lemma_fx_div_nonneg(
                            spectrum_eval_spec(sp.reflected_color, lane_spec(wavelength, 0)),
                            clip(iabs(wo.z@)),
                        );
                        lemma_fx_div_nonneg(
                            spectrum_eval_spec(sp.reflected_color, lane_spec(wavelength, 1)),
                            clip(iabs(wo.z@)),
                        );
                        lemma_fx_div_nonneg(
                            spectrum_eval_spec(sp.reflected_color, lane_spec(wavelength, 2)),
                            clip(iabs(wo.z@)),
                        );
                        lemma_fx_div_nonneg(
                            spectrum_eval_spec(sp.reflected_color, lane_spec(wavelength, 3)),
                            clip(iabs(wo.z@)),
                        );
                    },
                    Bsdf::Fresnel(f) => {
                        lemma_fresnel_sample_nonneg(*f, wo, wavelength, r);
                    },
                }
            }
        }
        r
    }

    /// Whether the material is a delta distribution.
    pub fn is_specular(&self) -> (r: bool)
        ensures
            r == !(self is Lambertian),
    {
        match self {
            Bsdf::Lambertian(l) => l.is_specular(),
            Bsdf::Specular(s) => s.is_specular(),
            Bsdf::Fresnel(f) => f.is_specular(),
        }
    }
}

} // verus!
