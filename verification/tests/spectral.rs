//! Wavelengths, spectra and the hero-wavelength machinery.

use iris::fixed::Fx;
use iris::spectrum::{
    Wavelength, SpectralSample, PdfSet, ConstantSpectrum, UpsampleTable, UpsampledSpectrum,
};
use iris::sampling::{Sampler, balance_heuristic_1};
use iris::color::{CieTables, Xyz};

#[test]
fn wavelength_sample_spans_domain() {
    assert_eq!(Wavelength::sample(Fx::zero()).hero.raw, 380_000_000);
    // the largest unit sample stays strictly below the upper edge
    let top = Wavelength::sample(Fx::new(999_999)).hero.raw;
    assert_eq!(top, 380_000_000 + 339_999_660);
    assert!(top < 720_000_000);
}

#[test]
fn wavelength_lanes_are_quarter_rotations() {
    let w = Wavelength::sample(Fx::zero());
    assert_eq!(w.lane(0).raw, 380_000_000);
    assert_eq!(w.lane(1).raw, 465_000_000);
    assert_eq!(w.lane(2).raw, 550_000_000);
    assert_eq!(w.lane(3).raw, 635_000_000);
}

#[test]
fn wavelength_rotation_four_times_returns() {
    // the partner derivation applied four times is the identity
    let w = Wavelength { hero: Fx::new(482_000_000) };
    let r = w.rotate().rotate().rotate().rotate();
    assert_eq!(r.hero.raw, w.hero.raw);
    let w2 = Wavelength { hero: Fx::new(700_000_000) };
    let r2 = w2.rotate().rotate().rotate().rotate();
    assert_eq!(r2.hero.raw, w2.hero.raw);
}

#[test]
fn wavelength_pdf_is_uniform_reciprocal_span() {
    let w = Wavelength { hero: Fx::new(500_000_000) };
    // 1 / 340 at the working resolution
    assert_eq!(w.pdf().raw, 2_941);
}

#[test]
fn constant_spectrum_is_flat() {
    let c = ConstantSpectrum::new(Fx::new(700_000));
    assert_eq!(c.evaluate_single(Fx::new(400_000_000)).raw, 700_000);
    let w = Wavelength { hero: Fx::new(600_000_000) };
    let s = c.evaluate(w);
    assert_eq!(s.l0.raw, 700_000);
    assert_eq!(s.l3.raw, 700_000);
}

#[test]
fn upsampled_zero_coefficients_give_half() {
    // the sigmoid of the zero polynomial is exactly one half
    let u = UpsampledSpectrum::new(Fx::zero(), Fx::zero(), Fx::zero());
    assert_eq!(u.evaluate_single(Fx::new(550_000_000)).raw, 500_000);
}

#[test]
fn upsampled_fit_matches_channels_at_anchors() {
    // the fit passes near the channel reflectances at the anchor
    // wavelengths: blue at 460 nm, green at 550 nm, red at 620 nm
    let table = UpsampleTable::load();
    let gray = table.get_spectrum(Fx::new(800_000), Fx::new(800_000), Fx::new(800_000));
    let g550 = gray.evaluate_single(Fx::new(550_000_000)).raw;
    assert!((780_000..=820_000).contains(&g550), "gray at 550 nm: {g550}");
    let orange = table.get_spectrum(Fx::new(1_000_000), Fx::new(400_000), Fx::zero());
    let o620 = orange.evaluate_single(Fx::new(620_000_000)).raw;
    let o550 = orange.evaluate_single(Fx::new(550_000_000)).raw;
    let o460 = orange.evaluate_single(Fx::new(460_000_000)).raw;
    assert!(o620 > 900_000, "orange red band: {o620}");
    assert!((360_000..=440_000).contains(&o550), "orange green band: {o550}");
    assert!(o460 < 100_000, "orange blue band: {o460}");
}

#[test]
fn upsampled_set_scale() {
    let mut u = UpsampledSpectrum::new(Fx::zero(), Fx::zero(), Fx::zero());
    u.set_scale(Fx::new(2_000_000));
    // one half scaled by two is one
    assert_eq!(u.evaluate_single(Fx::new(550_000_000)).raw, 1_000_000);
}

#[test]
fn mis_weight_equal_lanes_are_quarters() {
    // equal positive densities give exactly 0.25 per lane
    let w = balance_heuristic_1(PdfSet::splat(Fx::new(700_000)));
    assert_eq!(w.l0.raw, 250_000);
    assert_eq!(w.l1.raw, 250_000);
    assert_eq!(w.l2.raw, 250_000);
    assert_eq!(w.l3.raw, 250_000);
}

#[test]
fn mis_weight_lanes_sum_to_one() {
    // positive lanes: the weights sum to one up to truncation
    let w = balance_heuristic_1(PdfSet::new(
        Fx::new(123_456),
        Fx::new(700_000),
        Fx::new(5_000),
        Fx::new(999_999),
    ));
    let sum = w.l0.raw + w.l1.raw + w.l2.raw + w.l3.raw;
    assert!((999_997..=1_000_000).contains(&sum), "weight sum: {sum}");
    // a zero lane gets zero weight
    let w2 = balance_heuristic_1(PdfSet::new(Fx::zero(), Fx::one(), Fx::one(), Fx::one()));
    assert_eq!(w2.l0.raw, 0);
}

#[test]
fn spectral_sample_ops() {
    let a = SpectralSample::new(Fx::one(), Fx::new(2_000_000), Fx::zero(), Fx::new(-1_000_000));
    let b = SpectralSample::splat(Fx::new(500_000));
    let s = a.add(b);
    assert_eq!(s.l0.raw, 1_500_000);
    assert_eq!(s.l1.raw, 2_500_000);
    let m = a.mul(b);
    assert_eq!(m.l1.raw, 1_000_000);
    assert_eq!(m.l3.raw, -500_000);
    assert_eq!(a.hero().raw, 1_000_000);
    assert_eq!(a.sum().raw, 2_000_000);
    let d = a.div_scalar(Fx::new(2_000_000));
    assert_eq!(d.l1.raw, 1_000_000);
}

#[test]
fn sampler_serves_buffer_then_fallback() {
    let mut s = Sampler::new(vec![1, 999_999], 7);
    assert_eq!(s.gen_0_1().raw, 1);
    assert_eq!(s.gen_0_1().raw, 999_999);
    // after the buffer, the fallback generator stays in range
    for _ in 0..100 {
        let v = s.gen_0_1().raw;
        assert!((0..1_000_000).contains(&v));
    }
    let mut t = Sampler::new(vec![], 42);
    for n in 1..50usize {
        assert!(t.gen_array_index(n) < n);
    }
}

#[test]
fn cie_tables_edge_values() {
    // the matching functions at the table edges match the published
    // values: 380 nm and 700 nm
    let tables = CieTables::load();
    let at380 = Xyz::from_wavelength(&tables, Fx::new(380_000_000), Fx::one());
    assert_eq!(at380.x.raw, 1_368);
    assert_eq!(at380.y.raw, 39);
    assert_eq!(at380.z.raw, 6_450);
    let at700 = Xyz::from_wavelength(&tables, Fx::new(700_000_000), Fx::one());
    assert_eq!(at700.x.raw, 11_359);
    assert_eq!(at700.y.raw, 4_102);
    assert_eq!(at700.z.raw, 0);
    // beyond 700 nm the padded tail is zero and still indexable
    let at719 = Xyz::from_wavelength(&tables, Fx::new(719_000_000), Fx::one());
    assert_eq!(at719.x.raw, 0);
}

#[test]
fn srgb_transfer_curve_values() {
    // the standard transfer curve: linear segment below the knee, the
    // power segment above it; one half maps to about 0.7354
    let tables = CieTables::load();
    assert_eq!(iris::color::gamma_correct(&tables, Fx::new(3_130)).raw, 40_439);
    assert_eq!(iris::color::gamma_correct(&tables, Fx::new(500_000)).raw, 735_357);
    assert_eq!(iris::color::gamma_correct(&tables, Fx::new(1_000_000)).raw, 1_000_000);
    assert_eq!(iris::color::gamma_correct(&tables, Fx::zero()).raw, 0);
}

#[test]
fn srgb_pipeline_black_and_white() {
    let tables = CieTables::load();
    let black = Xyz::zero().to_srgb(&tables);
    assert_eq!(black.to_bytes(), (0, 0, 0));
    // a very bright neutral value tonemaps near one and lands near white
    let bright = Xyz::new(
        Fx::new(1_000_000_000),
        Fx::new(1_000_000_000),
        Fx::new(1_000_000_000),
    );
    let (r, g, b) = bright.to_srgb(&tables).to_bytes();
    assert!(r > 230 && g > 230 && b > 230, "bright pixel: {r} {g} {b}");
}
