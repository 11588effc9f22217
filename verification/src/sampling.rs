//! The sample source and the multiple-importance-sampling weight.
//!
//! The integrator only needs a stream of uniform unit samples. A [`Sampler`]
//! serves a caller-provided buffer of low-discrepancy values first (the
//! driver fills it from its quasi-random source) and continues with a
//! xorshift generator once the buffer is exhausted, so the renderer never
//! runs dry mid-path. Every value handed out lies in `[0, 1)`.

use vstd::prelude::*;
use vstd::arithmetic::div_mod::{lemma_fundamental_div_mod, lemma_fundamental_div_mod_converse};
use crate::fixed::{Fx, SCALE, RAW_MAX, fx_add, fx_div};
use crate::spectrum::PdfSet;

verus! {

/// A stateful source of uniform unit samples.
pub struct Sampler {
    /// Prefilled uniform values in `[0, SCALE)`, served in order.
    pub vals: Vec<i64>,
    /// Index of the next prefilled value to serve.
    pub cursor: usize,
    /// State of the fallback xorshift generator.
    pub state: u64,
}

impl Sampler {
    /// Every prefilled value lies in the unit range.
    pub open spec fn wf(self) -> bool {
        forall|i: int| 0 <= i < self.vals@.len() ==> 0 <= #[trigger] self.vals@[i] < SCALE
    }

    /// Builds a sampler over a buffer of unit-range values and a seed for
    /// the fallback generator.
    pub fn new(vals: Vec<i64>, seed: u64) -> (r: Sampler)
        requires
            forall|i: int| 0 <= i < vals@.len() ==> 0 <= #[trigger] vals@[i] < SCALE,
        ensures
            r.wf(),
    {
        Sampler { vals, cursor: 0, state: seed | 1 }
    }

    /// The next uniform sample in `[0, 1)`.
    pub fn gen_0_1(&mut self) -> (r: Fx)
        requires
            old(self).wf(),
        ensures
            final(self).wf(),
            0 <= r@ < SCALE,
    {
        if self.cursor < self.vals.len() {
            let v: i64 = self.vals[self.cursor];
            self.cursor = self.cursor + 1;
            Fx::new(v)
        } else {
            let mut s: u64 = self.state;
            s = s ^ (s << 13u64);
            s = s ^ (s >> 7u64);
            s = s ^ (s << 17u64);
            self.state = s;
            let m: u64 = s % 1_000_000u64;
            Fx::new(m as i64)
        }
    }

    /// A uniform index below `n`.
    pub fn gen_array_index(&mut self, n: usize) -> (r: usize)
        requires
            old(self).wf(),
            n > 0,
        ensures
            final(self).wf(),
            r < n,
    {
        let u = self.gen_0_1();
        proof {
            assert((u.raw as u128) * (n as u128) < 340282366920938463463374607431768211455u128)
                by (nonlinear_arith)
                requires
                    (u.raw as u128) < 1_000_000u128,
                    (n as u128) <= 18446744073709551615u128,
            ;
        }
        let wide: u128 = (u.raw as u128) * (n as u128);
        let idx: u128 = wide / (SCALE as u128);
        proof {
            assert(wide < (SCALE as u128) * (n as u128)) by (nonlinear_arith)
                requires
                    wide == (u.raw as u128) * (n as u128),
                    (u.raw as u128) < SCALE as u128,
                    n > 0,
            ;
            assert(idx < n as u128) by (nonlinear_arith)
                requires
                    idx == wide / (SCALE as u128),
                    wide < (SCALE as u128) * (n as u128),
                    SCALE as u128 > 0,
            ;
        }
        idx as usize
    }
}

/// The hero-wavelength balance heuristic over one path-density set: each
/// lane's weight is its share of the lane sum. The outer wavelength
/// densities cancel because the four wavelengths are drawn uniformly.
pub fn balance_heuristic_1(pdfs: PdfSet) -> (r: PdfSet)
    ensures
        ({
            let s = fx_add(fx_add(fx_add(pdfs.l0@, pdfs.l1@), pdfs.l2@), pdfs.l3@);
            r.l0@ == fx_div(pdfs.l0@, s) && r.l1@ == fx_div(pdfs.l1@, s) && r.l2@ == fx_div(
                pdfs.l2@,
                s,
            ) && r.l3@ == fx_div(pdfs.l3@, s)
        }),
{
    let s = pdfs.sum();
    pdfs.div_scalar(s)
}

/// When every lane of the path-density set is positive, the lanes of the
/// balance-heuristic weight sum to one, up to the truncation of the four
/// divisions (at most 3 raw units below one, never above).
pub proof fn lemma_mis_weight_unit_sum(p0: int, p1: int, p2: int, p3: int)
    requires
        p0 > 0 && p1 > 0 && p2 > 0 && p3 > 0,
        p0 + p1 + p2 + p3 <= RAW_MAX,
    ensures
        ({
            let s = fx_add(fx_add(fx_add(p0, p1), p2), p3);
            let w = fx_div(p0, s) + fx_div(p1, s) + fx_div(p2, s) + fx_div(p3, s);
            SCALE - 3 <= w <= SCALE
        }),
{
    let s = p0 + p1 + p2 + p3;
    assert(fx_add(fx_add(fx_add(p0, p1), p2), p3) == s);
    let m = SCALE as int;
    lemma_div_share(p0, s, m);
    lemma_div_share(p1, s, m);
    lemma_div_share(p2, s, m);
    lemma_div_share(p3, s, m);
    let q0 = (p0 * m) / s;
    let q1 = (p1 * m) / s;
    let q2 = (p2 * m) / s;
    let q3 = (p3 * m) / s;
    lemma_fundamental_div_mod(p0 * m, s);
    lemma_fundamental_div_mod(p1 * m, s);
    lemma_fundamental_div_mod(p2 * m, s);
    lemma_fundamental_div_mod(p3 * m, s);
    let r0 = (p0 * m) % s;
    let r1 = (p1 * m) % s;
    let r2 = (p2 * m) % s;
    let r3 = (p3 * m) % s;
    assert(p0 * m + p1 * m + p2 * m + p3 * m == s * m) by (nonlinear_arith)
        requires
            s == p0 + p1 + p2 + p3,
    ;
    assert(s * m == s * (q0 + q1 + q2 + q3) + (r0 + r1 + r2 + r3)) by (nonlinear_arith)
        requires
            p0 * m == s * q0 + r0,
            p1 * m == s * q1 + r1,
            p2 * m == s * q2 + r2,
            p3 * m == s * q3 + r3,
            p0 * m + p1 * m + p2 * m + p3 * m == s * m,
    ;
    assert(m - 3 <= q0 + q1 + q2 + q3 <= m) by (nonlinear_arith)
        requires
            s * m == s * (q0 + q1 + q2 + q3) + (r0 + r1 + r2 + r3),
            0 <= r0 < s,
            0 <= r1 < s,
            0 <= r2 < s,
            0 <= r3 < s,
            s > 0,
    ;
    assert(fx_div(p0, s) == q0);
    assert(fx_div(p1, s) == q1);
    assert(fx_div(p2, s) == q2);
    assert(fx_div(p3, s) == q3);
}

/// A lane's weight never exceeds one and never clips: when `0 < p <= s`,
/// the share `(p * SCALE) / s` lies in `[0, SCALE]`.
proof fn lemma_div_share(p: int, s: int, m: int)
    requires
        0 < p <= s,
        m == SCALE as int,
    ensures
        0 <= (p * m) / s <= m,
        fx_div(p, s) == (p * m) / s,
{
    lemma_fundamental_div_mod(p * m, s);
    let q = (p * m) / s;
    let r = (p * m) % s;
    assert(0 <= q <= m) by (nonlinear_arith)
        requires
            p * m == s * q + r,
            0 <= r < s,
            0 < p <= s,
            m > 0,
    ;
}

/// Equal positive lanes give the exact quarter weight on every lane.
pub proof fn lemma_mis_weight_equal(p: int)
    requires
        0 < p,
        4 * p <= RAW_MAX,
    ensures
        ({
            let s = fx_add(fx_add(fx_add(p, p), p), p);
            fx_div(p, s) == SCALE as int / 4
        }),
{
    let s = 4 * p;
    assert(fx_add(fx_add(fx_add(p, p), p), p) == s);
    assert(p * (SCALE as int) == s * 250_000 + 0) by (nonlinear_arith)
        requires
            s == 4 * p,
    ;
    lemma_fundamental_div_mod_converse(p * (SCALE as int), s, 250_000, 0);
}

} // verus!
