//! Wavelengths, spectral samples and spectra.
//!
//! Hero wavelength sampling carries four correlated wavelengths per path:
//! one hero wavelength drawn uniformly from the visible domain and three
//! partners rotated by quarters of the domain. A [`SpectralSample`] holds a
//! radiance or reflectance per lane, a [`PdfSet`] a probability density per
//! lane.

use vstd::prelude::*;
use vstd::arithmetic::div_mod::{
    lemma_fundamental_div_mod_converse_mod,
    lemma_mod_division_less_than_divisor,
};
use crate::fixed::{Fx, SCALE, fx_add, fx_sub, fx_mul, fx_div, fx_sqrt, clip};

verus! {

/// Lower edge of the wavelength domain, raw units of nm (380 nm).
pub const LAMBDA_MIN_RAW: i64 = 380_000_000;

/// Upper edge of the wavelength domain, raw units of nm (720 nm).
pub const LAMBDA_MAX_RAW: i64 = 720_000_000;

/// Width of the wavelength domain, raw units of nm (340 nm).
pub const LAMBDA_SPAN_RAW: i64 = 340_000_000;

/// A quarter of the domain width, the rotation step between partner
/// wavelengths (85 nm).
pub const LAMBDA_QUARTER_RAW: i64 = 85_000_000;

/// A hero wavelength set: the hero wavelength in nm; the three partners
/// are derived by rotation ([`lane_spec`]).
#[derive(Clone, Copy, Debug, PartialEq, Eq, Structural)]
pub struct Wavelength {
    pub hero: Fx,
}

/// One rotation step on a wavelength in nm: the offset from the lower edge
/// advances by a quarter of the domain, modulo the domain width.
pub open spec fn rotate_spec(h: int) -> int {
    LAMBDA_MIN_RAW + ((h - LAMBDA_MIN_RAW + LAMBDA_QUARTER_RAW) % (LAMBDA_SPAN_RAW as int))
}

/// The wavelength of lane `i` of a set with hero `h`: `i` rotation steps.
pub open spec fn lane_spec(w: Wavelength, i: int) -> int {
    LAMBDA_MIN_RAW + ((w.hero@ - LAMBDA_MIN_RAW + i * LAMBDA_QUARTER_RAW) % (
    LAMBDA_SPAN_RAW as int))
}

impl Wavelength {
    /// A wavelength set is well formed when its hero lies in the domain.
    pub open spec fn wf(self) -> bool {
        LAMBDA_MIN_RAW <= self.hero@ < LAMBDA_MAX_RAW
    }

    /// Maps a uniform unit sample onto the wavelength domain.
    pub fn sample(u: Fx) -> (r: Wavelength)
        requires
            0 <= u@ < SCALE,
        ensures
            r.hero@ == fx_add(LAMBDA_MIN_RAW as int, fx_mul(u@, LAMBDA_SPAN_RAW as int)),
            r.wf(),
    {
        let offset = u.mul(Fx::new(LAMBDA_SPAN_RAW));
        proof {
            assert(fx_mul(u@, LAMBDA_SPAN_RAW as int) < LAMBDA_SPAN_RAW as int
                && fx_mul(u@, LAMBDA_SPAN_RAW as int) >= 0) by (nonlinear_arith)
                requires
                    0 <= u@ < 1_000_000,
            ;
        }
        Wavelength { hero: Fx::new(LAMBDA_MIN_RAW).add(offset) }
    }

    /// The probability density with which each lane is drawn: the uniform
    /// density over the domain, `1 / 340` per nm.
    pub fn pdf(self) -> (r: Fx)
        ensures
            r@ == fx_div(SCALE as int, LAMBDA_SPAN_RAW as int),
    {
        Fx::new(SCALE).div(Fx::new(LAMBDA_SPAN_RAW))
    }

    /// The wavelength carried by lane `i`.
    pub fn lane(self, i: usize) -> (r: Fx)
        requires
            i < 4,
            self.wf(),
        ensures
            r@ == lane_spec(self, i as int),
            LAMBDA_MIN_RAW <= r@ < LAMBDA_MAX_RAW,
    {
        let off: u64 = ((self.hero.raw - LAMBDA_MIN_RAW) as u64) + (i as u64) * 85_000_000u64;
        let m: u64 = off % 340_000_000u64;
        proof {
            lemma_mod_division_less_than_divisor(off as int, 340_000_000int);
        }
        Fx::new((m as i64) + LAMBDA_MIN_RAW)
    }

    /// The next wavelength set in rotation order: the partner derivation
    /// applied once to the hero.
    pub fn rotate(self) -> (r: Wavelength)
        requires
            self.wf(),
        ensures
            r.hero@ == rotate_spec(self.hero@),
            r.wf(),
    {
        let l = self.lane(1);
        Wavelength { hero: l }
    }
}

/// One rotation step, written without the modulo: adding a quarter wraps at
/// the upper edge of the domain.
pub proof fn lemma_rotate_step(h: int)
    requires
        LAMBDA_MIN_RAW <= h < LAMBDA_MAX_RAW,
    ensures
        rotate_spec(h) == if h + LAMBDA_QUARTER_RAW < LAMBDA_MAX_RAW {
            h + LAMBDA_QUARTER_RAW
        } else {
            h + LAMBDA_QUARTER_RAW - LAMBDA_SPAN_RAW
        },
{
    let o = h - LAMBDA_MIN_RAW + LAMBDA_QUARTER_RAW;
    let s = LAMBDA_SPAN_RAW as int;
    if o < s {
        lemma_fundamental_div_mod_converse_mod(o, s, 0, o);
    } else {
        lemma_fundamental_div_mod_converse_mod(o, s, 1, o - s);
    }
}

/// Applying the partner derivation four times returns the starting
/// wavelength set: the rotation has period four.
pub proof fn lemma_rotation_period(w: Wavelength)
    requires
        w.wf(),
    ensures
        rotate_spec(rotate_spec(rotate_spec(rotate_spec(w.hero@)))) == w.hero@,
{
    let h0 = w.hero@;
    lemma_rotate_step(h0);
    let h1 = rotate_spec(h0);
    lemma_rotate_step(h1);
    let h2 = rotate_spec(h1);
    lemma_rotate_step(h2);
    let h3 = rotate_spec(h2);
    lemma_rotate_step(h3);
}

/// Every lane of a well-formed wavelength set lies in the domain.
pub proof fn lemma_lane_in_domain(w: Wavelength, i: int)
    requires
        w.wf(),
    ensures
        LAMBDA_MIN_RAW <= lane_spec(w, i) < LAMBDA_MAX_RAW,
{
    lemma_mod_division_less_than_divisor(
        w.hero@ - LAMBDA_MIN_RAW + i * LAMBDA_QUARTER_RAW,
        LAMBDA_SPAN_RAW as int,
    );
}

/// A 4-lane spectral value: one radiance or reflectance per wavelength of
/// the carrying wavelength set. Lane 0 is the hero lane.
#[derive(Clone, Copy, Debug, PartialEq, Eq, Structural)]
pub struct SpectralSample {
    pub l0: Fx,
    pub l1: Fx,
    pub l2: Fx,
    pub l3: Fx,
}

/// A 4-lane set of probability densities; lane 0 is the hero lane.
#[derive(Clone, Copy, Debug, PartialEq, Eq, Structural)]
pub struct PdfSet {
    pub l0: Fx,
    pub l1: Fx,
    pub l2: Fx,
    pub l3: Fx,
}

impl SpectralSample {
    /// Builds a sample from its four lanes.
    pub fn new(l0: Fx, l1: Fx, l2: Fx, l3: Fx) -> (r: SpectralSample)
        ensures
            r.l0 == l0 && r.l1 == l1 && r.l2 == l2 && r.l3 == l3,
    {
        SpectralSample { l0, l1, l2, l3 }
    }

    /// A sample with all lanes equal.
    pub fn splat(v: Fx) -> (r: SpectralSample)
        ensures
            r.l0 == v && r.l1 == v && r.l2 == v && r.l3 == v,
    {
        SpectralSample { l0: v, l1: v, l2: v, l3: v }
    }

    /// The hero lane.
    pub fn hero(self) -> (r: Fx)
        ensures
            r == self.l0,
    {
        self.l0
    }

    /// The sum of the four lanes.
    pub fn sum(self) -> (r: Fx)
        ensures
            r@ == fx_add(fx_add(fx_add(self.l0@, self.l1@), self.l2@), self.l3@),
    {
        self.l0.add(self.l1).add(self.l2).add(self.l3)
    }

    /// Lanewise sum.
    pub fn add(self, o: SpectralSample) -> (r: SpectralSample)
        ensures
            r.l0@ == fx_add(self.l0@, o.l0@),
            r.l1@ == fx_add(self.l1@, o.l1@),
            r.l2@ == fx_add(self.l2@, o.l2@),
            r.l3@ == fx_add(self.l3@, o.l3@),
    {
        SpectralSample {
            l0: self.l0.add(o.l0),
            l1: self.l1.add(o.l1),
            l2: self.l2.add(o.l2),
            l3: self.l3.add(o.l3),
        }
    }

    /// Lanewise product.
    pub fn mul(self, o: SpectralSample) -> (r: SpectralSample)
        ensures
            r.l0@ == fx_mul(self.l0@, o.l0@),
            r.l1@ == fx_mul(self.l1@, o.l1@),
            r.l2@ == fx_mul(self.l2@, o.l2@),
            r.l3@ == fx_mul(self.l3@, o.l3@),
    {
        SpectralSample {
            l0: self.l0.mul(o.l0),
            l1: self.l1.mul(o.l1),
            l2: self.l2.mul(o.l2),
            l3: self.l3.mul(o.l3),
        }
    }

    /// Product with a 4-lane density set, lane by lane.
    pub fn mul_pdf(self, o: PdfSet) -> (r: SpectralSample)
        ensures
            r.l0@ == fx_mul(self.l0@, o.l0@),
            r.l1@ == fx_mul(self.l1@, o.l1@),
            r.l2@ == fx_mul(self.l2@, o.l2@),
            r.l3@ == fx_mul(self.l3@, o.l3@),
    {
        SpectralSample {
            l0: self.l0.mul(o.l0),
            l1: self.l1.mul(o.l1),
            l2: self.l2.mul(o.l2),
            l3: self.l3.mul(o.l3),
        }
    }

    /// Scales every lane by a scalar.
    pub fn scale(self, s: Fx) -> (r: SpectralSample)
        ensures
            r.l0@ == fx_mul(self.l0@, s@),
            r.l1@ == fx_mul(self.l1@, s@),
            r.l2@ == fx_mul(self.l2@, s@),
            r.l3@ == fx_mul(self.l3@, s@),
    {
        SpectralSample {
            l0: self.l0.mul(s),
            l1: self.l1.mul(s),
            l2: self.l2.mul(s),
            l3: self.l3.mul(s),
        }
    }

    /// Divides every lane by a scalar (zero divisor yields zero lanes).
    pub fn div_scalar(self, s: Fx) -> (r: SpectralSample)
        ensures
            r.l0@ == fx_div(self.l0@, s@),
            r.l1@ == fx_div(self.l1@, s@),
            r.l2@ == fx_div(self.l2@, s@),
            r.l3@ == fx_div(self.l3@, s@),
    {
        SpectralSample {
            l0: self.l0.div(s),
            l1: self.l1.div(s),
            l2: self.l2.div(s),
            l3: self.l3.div(s),
        }
    }
}

impl PdfSet {
    /// Builds a density set from its four lanes.
    pub fn new(l0: Fx, l1: Fx, l2: Fx, l3: Fx) -> (r: PdfSet)
        ensures
            r.l0 == l0 && r.l1 == l1 && r.l2 == l2 && r.l3 == l3,
    {
        PdfSet { l0, l1, l2, l3 }
    }

    /// A density set with all lanes equal.
    pub fn splat(v: Fx) -> (r: PdfSet)
        ensures
            r.l0 == v && r.l1 == v && r.l2 == v && r.l3 == v,
    {
        PdfSet { l0: v, l1: v, l2: v, l3: v }
    }

    /// The hero lane.
    pub fn hero(self) -> (r: Fx)
        ensures
            r == self.l0,
    {
        self.l0
    }

    /// The sum of the four lanes.
    pub fn sum(self) -> (r: Fx)
        ensures
            r@ == fx_add(fx_add(fx_add(self.l0@, self.l1@), self.l2@), self.l3@),
    {
        self.l0.add(self.l1).add(self.l2).add(self.l3)
    }

    /// Lanewise product.
    pub fn mul(self, o: PdfSet) -> (r: PdfSet)
        ensures
            r.l0@ == fx_mul(self.l0@, o.l0@),
            r.l1@ == fx_mul(self.l1@, o.l1@),
            r.l2@ == fx_mul(self.l2@, o.l2@),
            r.l3@ == fx_mul(self.l3@, o.l3@),
    {
        PdfSet {
            l0: self.l0.mul(o.l0),
            l1: self.l1.mul(o.l1),
            l2: self.l2.mul(o.l2),
            l3: self.l3.mul(o.l3),
        }
    }

    /// Divides every lane by a scalar (zero divisor yields zero lanes).
    pub fn div_scalar(self, s: Fx) -> (r: PdfSet)
        ensures
            r.l0@ == fx_div(self.l0@, s@),
            r.l1@ == fx_div(self.l1@, s@),
            r.l2@ == fx_div(self.l2@, s@),
            r.l3@ == fx_div(self.l3@, s@),
    {
        PdfSet {
            l0: self.l0.div(s),
            l1: self.l1.div(s),
            l2: self.l2.div(s),
            l3: self.l3.div(s),
        }
    }
}

/// A spectrum with the same reflectance or radiance at every wavelength.
#[derive(Clone, Copy, Debug, PartialEq, Eq, Structural)]
pub struct ConstantSpectrum {
    pub value: Fx,
}

impl ConstantSpectrum {
    /// Builds a constant spectrum.
    pub fn new(value: Fx) -> (r: ConstantSpectrum)
        ensures
            r.value == value,
    {
        ConstantSpectrum { value }
    }

    /// The value, independent of the wavelength.
    pub fn evaluate_single(&self, _lambda: Fx) -> (r: Fx)
        ensures
            r == self.value,
    {
        self.value
    }

    /// The value at every lane of a wavelength set.
    pub fn evaluate(&self, _wavelength: Wavelength) -> (r: SpectralSample)
        ensures
            r.l0 == self.value && r.l1 == self.value && r.l2 == self.value && r.l3 == self.value,
    {
        SpectralSample::splat(self.value)
    }
}

/// The normalized position of a wavelength within the domain, in `[0, 1]`.
pub open spec fn lambda_unit_spec(lam: int) -> int {
    fx_div(fx_sub(lam, LAMBDA_MIN_RAW as int), LAMBDA_SPAN_RAW as int)
}

/// The sigmoid that maps an unbounded coefficient polynomial value to a
/// reflectance: `s(q) = 1/2 + q / (2 * sqrt(1 + q * q))`, then clamped into
/// `[0, 1]` to absorb fixed-point truncation at the extremes.
pub open spec fn sigmoid_spec(q: int) -> int {
    let s = fx_add(
        500_000int,
        fx_div(q, fx_mul(2 * SCALE as int, fx_sqrt(fx_add(SCALE as int, fx_mul(q, q))))),
    );
    if s < 0 {
        0
    } else if s > SCALE as int {
        SCALE as int
    } else {
        s
    }
}

/// The quadratic of an upsampled spectrum at the normalized position `t`.
pub open spec fn quadratic_spec(c0: int, c1: int, c2: int, t: int) -> int {
    fx_add(fx_add(fx_mul(c0, fx_mul(t, t)), fx_mul(c1, t)), c2)
}

/// The reflectance of an upsampled spectrum at a wavelength in nm.
pub open spec fn upsampled_eval_spec(sp: UpsampledSpectrum, lam: int) -> int {
    let t = lambda_unit_spec(lam);
    fx_mul(sigmoid_spec(quadratic_spec(sp.c0@, sp.c1@, sp.c2@, t)), sp.scale@)
}

/// A smooth reflectance spectrum given by a sigmoidal fit with three
/// coefficients over the normalized wavelength, times a radiance scale.
#[derive(Clone, Copy, Debug, PartialEq, Eq, Structural)]
pub struct UpsampledSpectrum {
    pub c0: Fx,
    pub c1: Fx,
    pub c2: Fx,
    pub scale: Fx,
}

impl UpsampledSpectrum {
    /// Builds an upsampled spectrum from its coefficients, with scale one.
    pub fn new(c0: Fx, c1: Fx, c2: Fx) -> (r: UpsampledSpectrum)
        ensures
            r.c0 == c0 && r.c1 == c1 && r.c2 == c2 && r.scale@ == SCALE as int,
    {
        UpsampledSpectrum { c0, c1, c2, scale: Fx::one() }
    }

    /// Replaces the radiance scale.
    pub fn set_scale(&mut self, scale: Fx)
        ensures
            final(self).scale == scale,
            final(self).c0 == old(self).c0 && final(self).c1 == old(self).c1 && final(self).c2
                == old(self).c2,
    {
        self.scale = scale;
    }

    /// The reflectance at a single wavelength in nm.
    pub fn evaluate_single(&self, lambda: Fx) -> (r: Fx)
        ensures
            r@ == upsampled_eval_spec(*self, lambda@),
    {
        let t = lambda.sub(Fx::new(LAMBDA_MIN_RAW)).div(Fx::new(LAMBDA_SPAN_RAW));
        let q = self.c0.mul(t.mul(t)).add(self.c1.mul(t)).add(self.c2);
        let den = Fx::new(2 * SCALE).mul(Fx::new(SCALE).add(q.mul(q)).sqrt());
        let s = Fx::new(500_000).add(q.div(den));
        let clamped = s.max(Fx::zero()).min(Fx::one());
        clamped.mul(self.scale)
    }

    /// The reflectance at every lane of a wavelength set.
    pub fn evaluate(&self, wavelength: Wavelength) -> (r: SpectralSample)
        requires
            wavelength.wf(),
        ensures
            r.l0@ == upsampled_eval_spec(*self, lane_spec(wavelength, 0)),
            r.l1@ == upsampled_eval_spec(*self, lane_spec(wavelength, 1)),
            r.l2@ == upsampled_eval_spec(*self, lane_spec(wavelength, 2)),
            r.l3@ == upsampled_eval_spec(*self, lane_spec(wavelength, 3)),
    {
        SpectralSample {
            l0: self.evaluate_single(wavelength.lane(0)),
            l1: self.evaluate_single(wavelength.lane(1)),
            l2: self.evaluate_single(wavelength.lane(2)),
            l3: self.evaluate_single(wavelength.lane(3)),
        }
    }
}

/// A material- or light-owned spectrum: one of the closed set of variants.
#[derive(Clone, Copy, Debug)]
pub enum Spectrum {
    Constant(ConstantSpectrum),
    Upsampled(UpsampledSpectrum),
}

/// Whether a spectrum is physically admissible: it evaluates to a
/// nonnegative value at every wavelength.
pub open spec fn spectrum_nonneg(s: Spectrum) -> bool {
    match s {
        Spectrum::Constant(c) => c.value@ >= 0,
        Spectrum::Upsampled(u) => u.scale@ >= 0,
    }
}

/// An admissible spectrum evaluates nonnegatively at every wavelength: a
/// constant is its value, and an upsampled spectrum is a clamped unit
/// sigmoid times a nonnegative scale.
pub proof fn lemma_spectrum_eval_nonneg(s: Spectrum, lam: int)
    requires
        spectrum_nonneg(s),
    ensures
        spectrum_eval_spec(s, lam) >= 0,
{
    match s {
        Spectrum::Constant(c) => {},
        Spectrum::Upsampled(u) => {
            let t = lambda_unit_spec(lam);
            let q = quadratic_spec(u.c0@, u.c1@, u.c2@, t);
            assert(sigmoid_spec(q) >= 0);
            crate::fixed::lemma_fx_mul_nonneg(sigmoid_spec(q), u.scale@);
        },
    }
}

/// The reflectance of any spectrum at a single wavelength in nm.
pub open spec fn spectrum_eval_spec(s: Spectrum, lam: int) -> int {
    match s {
        Spectrum::Constant(c) => c.value@,
        Spectrum::Upsampled(u) => upsampled_eval_spec(u, lam),
    }
}

impl Spectrum {
    /// A constant spectrum as a [`Spectrum`].
    pub fn constant(value: Fx) -> (r: Spectrum)
        ensures
            r == Spectrum::Constant(ConstantSpectrum { value }),
    {
        Spectrum::Constant(ConstantSpectrum { value })
    }

    /// The value at a single wavelength in nm.
    pub fn evaluate_single(&self, lambda: Fx) -> (r: Fx)
        ensures
            r@ == spectrum_eval_spec(*self, lambda@),
    {
        match self {
            Spectrum::Constant(c) => c.evaluate_single(lambda),
            Spectrum::Upsampled(u) => u.evaluate_single(lambda),
        }
    }

    /// The value at every lane of a wavelength set.
    pub fn evaluate(&self, wavelength: Wavelength) -> (r: SpectralSample)
        requires
            wavelength.wf(),
        ensures
            r.l0@ == spectrum_eval_spec(*self, lane_spec(wavelength, 0)),
            r.l1@ == spectrum_eval_spec(*self, lane_spec(wavelength, 1)),
            r.l2@ == spectrum_eval_spec(*self, lane_spec(wavelength, 2)),
            r.l3@ == spectrum_eval_spec(*self, lane_spec(wavelength, 3)),
    {
        match self {
            Spectrum::Constant(c) => c.evaluate(wavelength),
            Spectrum::Upsampled(u) => u.evaluate(wavelength),
        }
    }
}

/// Normalized anchor position of the blue channel (460 nm).
pub const ANCHOR_B_RAW: i64 = 235_294;

/// Normalized anchor position of the green channel (550 nm).
pub const ANCHOR_G_RAW: i64 = 500_000;

/// Normalized anchor position of the red channel (620 nm).
pub const ANCHOR_R_RAW: i64 = 705_882;

/// The coefficient value whose sigmoid is the given reflectance: the
/// inverse of [`sigmoid_spec`], with the reflectance clamped away from the
/// poles at 0 and 1.
pub open spec fn inv_sigmoid_spec(v: int) -> int {
    let c = if v <= 5_000 {
        5_000int
    } else if v >= 995_000 {
        995_000int
    } else {
        v
    };
    let y = fx_sub(fx_add(c, c), SCALE as int);
    fx_div(y, fx_sqrt(fx_sub(SCALE as int, fx_mul(y, y))))
}

/// The quadratic through the three channel anchors with the given
/// coefficient values there, as `(c0, c1, c2)` of `c0 t^2 + c1 t + c2`.
pub open spec fn upsample_coeffs_spec(qb: int, qg: int, qr: int) -> (int, int, int) {
    let tb = ANCHOR_B_RAW as int;
    let tg = ANCHOR_G_RAW as int;
    let tr = ANCHOR_R_RAW as int;
    let wb = fx_div(qb, fx_mul(fx_sub(tb, tg), fx_sub(tb, tr)));
    let wg = fx_div(qg, fx_mul(fx_sub(tg, tb), fx_sub(tg, tr)));
    let wr = fx_div(qr, fx_mul(fx_sub(tr, tb), fx_sub(tr, tg)));
    let c0 = fx_add(fx_add(wb, wg), wr);
    let c1 = clip(
        -fx_add(
            fx_add(fx_mul(wb, fx_add(tg, tr)), fx_mul(wg, fx_add(tb, tr))),
            fx_mul(wr, fx_add(tb, tg)),
        ),
    );
    let c2 = fx_add(
        fx_add(fx_mul(wb, fx_mul(tg, tr)), fx_mul(wg, fx_mul(tb, tr))),
        fx_mul(wr, fx_mul(tb, tg)),
    );
    (c0, c1, c2)
}

/// The built-in reflectance upsampling: sigmoidal spectra fitted to an RGB
/// triple at three anchor wavelengths, so that an in-gamut triple yields a
/// smooth spectrum whose blue, green and red band reflectances follow the
/// triple.
pub struct UpsampleTable {}

impl UpsampleTable {
    /// Makes the table available; the fit is analytic, so nothing is read.
    pub fn load() -> (r: UpsampleTable) {
        UpsampleTable {  }
    }

    /// The sigmoid coefficient whose reflectance matches one channel.
    fn coeff_q(v: Fx) -> (r: Fx)
        ensures
            r@ == inv_sigmoid_spec(v@),
    {
        let c = v.max(Fx::new(5_000)).min(Fx::new(995_000));
        let y = c.add(c).sub(Fx::one());
        y.div(Fx::one().sub(y.mul(y)).sqrt())
    }

    /// Fits an upsampled spectrum to an RGB reflectance triple.
    pub fn get_spectrum(&self, red: Fx, green: Fx, blue: Fx) -> (r: UpsampledSpectrum)
        ensures
            ({
                let cs = upsample_coeffs_spec(
                    inv_sigmoid_spec(blue@),
                    inv_sigmoid_spec(green@),
                    inv_sigmoid_spec(red@),
                );
                r.c0@ == cs.0 && r.c1@ == cs.1 && r.c2@ == cs.2 && r.scale@ == SCALE as int
            }),
    {
        let qb = Self::coeff_q(blue);
        let qg = Self::coeff_q(green);
        let qr = Self::coeff_q(red);
        let tb = Fx::new(ANCHOR_B_RAW);
        let tg = Fx::new(ANCHOR_G_RAW);
        let tr = Fx::new(ANCHOR_R_RAW);
        let wb = qb.div(tb.sub(tg).mul(tb.sub(tr)));
        let wg = qg.div(tg.sub(tb).mul(tg.sub(tr)));
        let wr = qr.div(tr.sub(tb).mul(tr.sub(tg)));
        let c0 = wb.add(wg).add(wr);
        let c1 = wb.mul(tg.add(tr)).add(wg.mul(tb.add(tr))).add(wr.mul(tb.add(tg))).neg();
        let c2 = wb.mul(tg.mul(tr)).add(wg.mul(tb.mul(tr))).add(wr.mul(tb.mul(tg)));
        UpsampledSpectrum::new(c0, c1, c2)
    }
}

} // verus!
