//! Fixed-point scalars.
//!
//! A [`Fx`] stores a real quantity scaled by [`SCALE`] (one millionth
//! resolution) in an `i64`. Every operation computes the exact wide result
//! and clips it into the `i64` range, so no operation can overflow and each
//! has an exact integer specification: the executable operations are pinned
//! to the spec functions [`fx_add`], [`fx_sub`], [`fx_mul`], [`fx_div`] and
//! [`fx_sqrt`].

use vstd::prelude::*;

verus! {

/// Number of raw units in 1.0.
pub const SCALE: i64 = 1_000_000;

/// Largest representable raw value.
pub const RAW_MAX: i64 = 9_223_372_036_854_775_807;

/// Smallest representable raw value.
pub const RAW_MIN: i64 = -9_223_372_036_854_775_807;

/// Clips an unbounded integer into the representable raw range.
pub open spec fn clip(x: int) -> int {
    if x > RAW_MAX as int {
        RAW_MAX as int
    } else if x < RAW_MIN as int {
        RAW_MIN as int
    } else {
        x
    }
}

/// Absolute value of an unbounded integer.
pub open spec fn iabs(x: int) -> int {
    if x < 0 {
        -x
    } else {
        x
    }
}

/// Exact result of fixed-point addition on raw values.
pub open spec fn fx_add(a: int, b: int) -> int {
    clip(a + b)
}

/// Exact result of fixed-point subtraction on raw values.
pub open spec fn fx_sub(a: int, b: int) -> int {
    clip(a - b)
}

/// Exact result of fixed-point multiplication on raw values: the wide
/// product is rescaled with truncation toward zero, then clipped.
pub open spec fn fx_mul(a: int, b: int) -> int {
    let q = (iabs(a) * iabs(b)) / (SCALE as int);
    if (a < 0) != (b < 0) {
        clip(-q)
    } else {
        clip(q)
    }
}

/// Exact result of fixed-point division on raw values: truncation toward
/// zero, clipped; division by zero yields zero.
pub open spec fn fx_div(a: int, b: int) -> int {
    if b == 0 {
        0
    } else {
        let q = (iabs(a) * (SCALE as int)) / iabs(b);
        if (a < 0) != (b < 0) {
            clip(-q)
        } else {
            clip(q)
        }
    }
}

/// The integer square root, defined by recursion so that it is total.
pub open spec fn isqrt(n: int) -> int
    decreases n,
{
    if n <= 0 {
        0
    } else {
        let r = isqrt(n - 1);
        if (r + 1) * (r + 1) <= n {
            r + 1
        } else {
            r
        }
    }
}

/// `isqrt(n)` is the unique `r >= 0` with `r * r <= n < (r + 1) * (r + 1)`.
pub proof fn lemma_isqrt(n: int)
    requires
        n >= 0,
    ensures
        isqrt(n) >= 0,
        isqrt(n) * isqrt(n) <= n,
        n < (isqrt(n) + 1) * (isqrt(n) + 1),
    decreases n,
{
    if n == 0 {
        assert(isqrt(0) == 0);
    } else {
        lemma_isqrt(n - 1);
        let r = isqrt(n - 1);
        if (r + 1) * (r + 1) <= n {
            assert(n <= (r + 1) * (r + 1)) by (nonlinear_arith)
                requires
                    n - 1 < (r + 1) * (r + 1),
            ;
            assert((r + 2) * (r + 2) > (r + 1) * (r + 1)) by (nonlinear_arith)
                requires
                    r >= 0,
            ;
        }
    }
}

/// Any witness of the square-root property equals `isqrt(n)`.
pub proof fn lemma_isqrt_unique(n: int, r: int)
    requires
        n >= 0,
        r >= 0,
        r * r <= n,
        n < (r + 1) * (r + 1),
    ensures
        r == isqrt(n),
{
    lemma_isqrt(n);
    let s = isqrt(n);
    assert(r == s) by (nonlinear_arith)
        requires
            r >= 0,
            s >= 0,
            r * r <= n,
            n < (r + 1) * (r + 1),
            s * s <= n,
            n < (s + 1) * (s + 1),
    ;
}

/// Exact result of the fixed-point square root on raw values: for `a > 0`
/// it is the integer square root of `a * SCALE` (so the result is again in
/// raw units); nonpositive inputs yield zero.
pub open spec fn fx_sqrt(a: int) -> int {
    if a <= 0 {
        0
    } else {
        isqrt(a * (SCALE as int))
    }
}

/// Zero is absorbing on the left of fixed-point multiplication.
pub proof fn lemma_fx_mul_zero_left(b: int)
    ensures
        fx_mul(0, b) == 0,
{
    assert(iabs(0) == 0);
    assert(iabs(0) * iabs(b) == 0) by (nonlinear_arith)
        requires
            iabs(0) == 0,
    ;
    vstd::arithmetic::div_mod::lemma_div_of0(SCALE as int);
}

/// Zero divided by anything is zero in fixed point.
pub proof fn lemma_fx_div_zero_left(b: int)
    ensures
        fx_div(0, b) == 0,
{
    if b != 0 {
        assert(iabs(0) == 0);
        assert(iabs(0) * (SCALE as int) == 0) by (nonlinear_arith)
            requires
                iabs(0) == 0,
        ;
        vstd::arithmetic::div_mod::lemma_div_of0(iabs(b));
    }
}

/// The product of nonnegatives is nonnegative.
pub proof fn lemma_fx_mul_nonneg(a: int, b: int)
    requires
        0 <= a,
        0 <= b,
    ensures
        0 <= fx_mul(a, b),
{
    assert(0 <= iabs(a) * iabs(b)) by (nonlinear_arith)
        requires
            iabs(a) >= 0,
            iabs(b) >= 0,
    ;
    vstd::arithmetic::div_mod::lemma_div_pos_is_pos(iabs(a) * iabs(b), SCALE as int);
}

/// The quotient of nonnegatives is nonnegative.
pub proof fn lemma_fx_div_nonneg(a: int, b: int)
    requires
        0 <= a,
        0 <= b,
    ensures
        0 <= fx_div(a, b),
{
    if b != 0 {
        assert(0 <= iabs(a) * (SCALE as int)) by (nonlinear_arith)
            requires
                iabs(a) >= 0,
        ;
        vstd::arithmetic::div_mod::lemma_div_pos_is_pos(iabs(a) * (SCALE as int), iabs(b));
    }
}

/// Multiplying by one is the identity on representable values.
pub proof fn lemma_fx_mul_one_left(b: int)
    requires
        RAW_MIN as int <= b <= RAW_MAX as int,
    ensures
        fx_mul(SCALE as int, b) == b,
{
    vstd::arithmetic::div_mod::lemma_div_multiples_vanish(iabs(b), SCALE as int);
    assert((SCALE as int) * iabs(b) == iabs(SCALE as int) * iabs(b)) by (nonlinear_arith)
        requires
            iabs(SCALE as int) == SCALE as int,
    ;
}

/// Fixed-point multiplication is commutative.
pub proof fn lemma_fx_mul_comm(a: int, b: int)
    ensures
        fx_mul(a, b) == fx_mul(b, a),
{
    assert(iabs(a) * iabs(b) == iabs(b) * iabs(a)) by (nonlinear_arith);
}

/// Two unit-range factors give a unit-range product.
pub proof fn lemma_fx_mul_unit_range(a: int, b: int)
    requires
        0 <= a <= SCALE,
        0 <= b <= SCALE,
    ensures
        0 <= fx_mul(a, b) <= SCALE,
        fx_mul(a, b) <= a,
        fx_mul(a, b) <= b,
{
    lemma_fx_mul_nonneg(a, b);
    assert(iabs(a) * iabs(b) <= a * (SCALE as int)) by (nonlinear_arith)
        requires
            iabs(a) == a,
            iabs(b) == b,
            0 <= a,
            b <= SCALE as int,
    ;
    assert(iabs(a) * iabs(b) <= b * (SCALE as int)) by (nonlinear_arith)
        requires
            iabs(a) == a,
            iabs(b) == b,
            0 <= b,
            a <= SCALE as int,
    ;
    vstd::arithmetic::div_mod::lemma_div_is_ordered(
        iabs(a) * iabs(b),
        a * (SCALE as int),
        SCALE as int,
    );
    vstd::arithmetic::div_mod::lemma_div_is_ordered(
        iabs(a) * iabs(b),
        b * (SCALE as int),
        SCALE as int,
    );
    vstd::arithmetic::div_mod::lemma_div_multiples_vanish(a, SCALE as int);
    vstd::arithmetic::div_mod::lemma_div_multiples_vanish(b, SCALE as int);
    assert(a * (SCALE as int) == (SCALE as int) * a) by (nonlinear_arith);
    assert(b * (SCALE as int) == (SCALE as int) * b) by (nonlinear_arith);
}

/// Multiplying by a unit-range factor never grows the magnitude.
pub proof fn lemma_fx_mul_mag_le(a: int, b: int)
    requires
        iabs(b) <= SCALE as int,
    ensures
        iabs(fx_mul(a, b)) <= iabs(a),
{
    assert(iabs(a) * iabs(b) <= iabs(a) * (SCALE as int)) by (nonlinear_arith)
        requires
            0 <= iabs(a),
            0 <= iabs(b) <= SCALE as int,
    ;
    vstd::arithmetic::div_mod::lemma_div_is_ordered(
        iabs(a) * iabs(b),
        iabs(a) * (SCALE as int),
        SCALE as int,
    );
    vstd::arithmetic::div_mod::lemma_div_multiples_vanish(iabs(a), SCALE as int);
    assert(iabs(a) * (SCALE as int) == (SCALE as int) * iabs(a)) by (nonlinear_arith);
    vstd::arithmetic::div_mod::lemma_div_pos_is_pos(iabs(a) * iabs(b), SCALE as int);
    assert(0 <= iabs(a) * iabs(b)) by (nonlinear_arith)
        requires
            0 <= iabs(a),
            0 <= iabs(b),
    ;
}

/// A magnitude bound for division: when the dividend magnitude is at most
/// half the divisor, the quotient magnitude is at most half of one.
pub proof fn lemma_fx_div_half_mag(a: int, b: int)
    requires
        0 < b,
        2 * iabs(a) <= b,
    ensures
        iabs(fx_div(a, b)) <= 500_000,
{
    assert(iabs(a) * (SCALE as int) * 2 <= b * (SCALE as int)) by (nonlinear_arith)
        requires
            2 * iabs(a) <= b,
    ;
    assert(iabs(a) * (SCALE as int) <= b * 500_000) by (nonlinear_arith)
        requires
            iabs(a) * (SCALE as int) * 2 <= b * (SCALE as int),
    ;
    vstd::arithmetic::div_mod::lemma_div_is_ordered(
        iabs(a) * (SCALE as int),
        b * 500_000,
        b,
    );
    vstd::arithmetic::div_mod::lemma_div_multiples_vanish(500_000, b);
    vstd::arithmetic::div_mod::lemma_div_pos_is_pos(iabs(a) * (SCALE as int), b);
    assert(0 <= iabs(a) * (SCALE as int)) by (nonlinear_arith)
        requires
            0 <= iabs(a),
    ;
}

/// A fixed-point scalar; the real value is `raw / SCALE`.
#[derive(Clone, Copy, Debug, PartialEq, Eq, Structural)]
pub struct Fx {
    pub raw: i64,
}

impl Fx {
    /// The raw value as an unbounded integer; contracts are stated over it.
    pub open spec fn view(self) -> int {
        self.raw as int
    }

    /// Wraps a raw value (the real quantity times [`SCALE`]).
    pub fn new(raw: i64) -> (r: Fx)
        ensures
            r@ == raw as int,
    {
        Fx { raw }
    }

    /// The fixed-point zero.
    pub fn zero() -> (r: Fx)
        ensures
            r@ == 0,
    {
        Fx { raw: 0 }
    }

    /// The fixed-point one.
    pub fn one() -> (r: Fx)
        ensures
            r@ == SCALE as int,
    {
        Fx { raw: SCALE }
    }

    /// Clipping addition.
    pub fn add(self, other: Fx) -> (r: Fx)
        ensures
            r@ == fx_add(self@, other@),
    {
        let wide: i128 = (self.raw as i128) + (other.raw as i128);
        Fx { raw: clip_exec(wide) }
    }

    /// Clipping subtraction.
    pub fn sub(self, other: Fx) -> (r: Fx)
        ensures
            r@ == fx_sub(self@, other@),
    {
        let wide: i128 = (self.raw as i128) - (other.raw as i128);
        Fx { raw: clip_exec(wide) }
    }

    /// Negation.
    pub fn neg(self) -> (r: Fx)
        ensures
            r@ == clip(-self@),
    {
        let wide: i128 = -(self.raw as i128);
        Fx { raw: clip_exec(wide) }
    }

    /// Absolute value.
    pub fn abs(self) -> (r: Fx)
        ensures
            r@ == clip(iabs(self@)),
    {
        if self.raw < 0 {
            self.neg()
        } else {
            self
        }
    }

    /// Rescaling multiplication: the real product of the two quantities.
    pub fn mul(self, other: Fx) -> (r: Fx)
        ensures
            r@ == fx_mul(self@, other@),
    {
        let a: i128 = self.raw as i128;
        let b: i128 = other.raw as i128;
        let negative: bool = (a < 0) != (b < 0);
        let ma: u128 = if a < 0 {
            (-a) as u128
        } else {
            a as u128
        };
        let mb: u128 = if b < 0 {
            (-b) as u128
        } else {
            b as u128
        };
        assert(ma * mb <= 85070591730234615865843651857942052864u128) by (nonlinear_arith)
            requires
                ma <= 9223372036854775808u128,
                mb <= 9223372036854775808u128,
        ;
        let q: u128 = (ma * mb) / (SCALE as u128);
        assert(ma as int * mb as int == iabs(self@ * other@)) by (nonlinear_arith)
            requires
                ma as int == iabs(self@),
                mb as int == iabs(other@),
        ;
        assert(iabs(self@ * other@) == iabs(self@) * iabs(other@)) by (nonlinear_arith);
        sign_result(negative, q)
    }

    /// Rescaling division with truncation toward zero; zero divisor gives 0.
    pub fn div(self, other: Fx) -> (r: Fx)
        ensures
            r@ == fx_div(self@, other@),
    {
        if other.raw == 0 {
            return Fx { raw: 0 };
        }
        let a: i128 = self.raw as i128;
        let b: i128 = other.raw as i128;
        let negative: bool = (a < 0) != (b < 0);
        let ma: u128 = if a < 0 {
            (-a) as u128
        } else {
            a as u128
        };
        let mb: u128 = if b < 0 {
            (-b) as u128
        } else {
            b as u128
        };
        assert(ma * (SCALE as u128) <= 9223372036854775808000000u128) by (nonlinear_arith)
            requires
                ma <= 9223372036854775808u128,
        ;
        let q: u128 = (ma * (SCALE as u128)) / mb;
        sign_result(negative, q)
    }

    /// Fixed-point square root: zero on nonpositive inputs.
    pub fn sqrt(self) -> (r: Fx)
        ensures
            r@ == fx_sqrt(self@),
            r@ >= 0,
    {
        if self.raw <= 0 {
            return Fx { raw: 0 };
        }
        let ru: u128 = self.raw as u128;
        assert(ru * (SCALE as u128) < 8796093022208u128 * 8796093022208u128) by (nonlinear_arith)
            requires
                ru <= 9223372036854775807u128,
        ;
        let t: u128 = ru * (SCALE as u128);
        let mut lo: u64 = 0;
        let mut hi: u64 = 8796093022208;
        while lo + 1 < hi
            invariant
                lo < hi,
                hi <= 8796093022208,
                (lo as int) * (lo as int) <= t as int,
                (t as int) < (hi as int) * (hi as int),
            decreases hi - lo,
        {
            let mid: u64 = lo + (hi - lo) / 2;
            assert(lo < mid < hi);
            assert((mid as u128) * (mid as u128) <= 8796093022208u128 * 8796093022208u128)
                by (nonlinear_arith)
                requires
                    mid <= 8796093022208u64,
            ;
            let sq: u128 = (mid as u128) * (mid as u128);
            if sq <= t {
                lo = mid;
            } else {
                hi = mid;
            }
        }
        assert(hi == lo + 1);
        proof {
            lemma_isqrt_unique(t as int, lo as int);
        }
        Fx { raw: lo as i64 }
    }

    /// Minimum by value.
    pub fn min(self, other: Fx) -> (r: Fx)
        ensures
            r@ == if self@ <= other@ {
                self@
            } else {
                other@
            },
    {
        if self.raw <= other.raw {
            self
        } else {
            other
        }
    }

    /// Maximum by value.
    pub fn max(self, other: Fx) -> (r: Fx)
        ensures
            r@ == if self@ >= other@ {
                self@
            } else {
                other@
            },
    {
        if self.raw >= other.raw {
            self
        } else {
            other
        }
    }

    /// Strictly-less comparison.
    pub fn lt(self, other: Fx) -> (r: bool)
        ensures
            r == (self@ < other@),
    {
        self.raw < other.raw
    }

    /// Less-or-equal comparison.
    pub fn le(self, other: Fx) -> (r: bool)
        ensures
            r == (self@ <= other@),
    {
        self.raw <= other.raw
    }

    /// True when the value is exactly zero.
    pub fn is_zero(self) -> (r: bool)
        ensures
            r == (self@ == 0),
    {
        self.raw == 0
    }
}

/// The exact result of the half-turn sine approximation: the rational
/// `32 g / (5 - 8 g)` with `g = u (1 - 2 u)`, clamped into `[0, 1]`.
pub open spec fn sin_half_turn_spec(u: int) -> int {
    let g = fx_mul(u, fx_sub(fx_sub(SCALE as int, u), u));
    let s = fx_div(fx_mul(g, 32_000_000), fx_sub(5_000_000, fx_mul(g, 8_000_000)));
    if s < 0 {
        0
    } else if s > SCALE as int {
        SCALE as int
    } else {
        s
    }
}

/// The exact result of [`Fx::sin_turn`] on a unit-range argument.
pub open spec fn sin_turn_spec(u: int) -> int {
    if u < 500_000 {
        sin_half_turn_spec(u)
    } else {
        clip(-sin_half_turn_spec(u - 500_000))
    }
}

/// The exact result of [`Fx::cos_turn`] on a unit-range argument.
pub open spec fn cos_turn_spec(u: int) -> int {
    if u < 750_000 {
        sin_turn_spec(u + 250_000)
    } else {
        sin_turn_spec(u - 750_000)
    }
}

impl Fx {
    /// Clamps the value into `[lo, hi]`.
    pub fn clamp(self, lo: Fx, hi: Fx) -> (r: Fx)
        requires
            lo@ <= hi@,
        ensures
            r@ == if self@ < lo@ {
                lo@
            } else if self@ > hi@ {
                hi@
            } else {
                self@
            },
    {
        if self.raw < lo.raw {
            lo
        } else if self.raw > hi.raw {
            hi
        } else {
            self
        }
    }

    /// The sine of `2 * pi * self` for `self` in `[0, 1)` (one full turn),
    /// by a rational approximation, clamped into `[-1, 1]`.
    pub fn sin_turn(self) -> (r: Fx)
        requires
            0 <= self@ < SCALE,
        ensures
            r@ == sin_turn_spec(self@),
            -(SCALE as int) <= r@ <= SCALE as int,
    {
        if self.raw < 500_000 {
            sin_half_turn(self)
        } else {
            sin_half_turn(Fx { raw: self.raw - 500_000 }).neg()
        }
    }

    /// The cosine of `2 * pi * self` for `self` in `[0, 1)` (one full turn),
    /// clamped into `[-1, 1]`.
    pub fn cos_turn(self) -> (r: Fx)
        requires
            0 <= self@ < SCALE,
        ensures
            r@ == cos_turn_spec(self@),
            -(SCALE as int) <= r@ <= SCALE as int,
    {
        let shifted = if self.raw < 750_000 {
            Fx { raw: self.raw + 250_000 }
        } else {
            Fx { raw: self.raw - 750_000 }
        };
        shifted.sin_turn()
    }
}

/// The sine of `2 * pi * u` on the first half turn, `u` in `[0, 1/2)`:
/// the rational approximation `32 g / (5 - 8 g)` with `g = u * (1 - 2 u)`,
/// clamped into `[0, 1]`.
fn sin_half_turn(u: Fx) -> (r: Fx)
    requires
        0 <= u@ < 500_000,
    ensures
        r@ == sin_half_turn_spec(u@),
        0 <= r@ <= SCALE as int,
{
    let g = u.mul(Fx::one().sub(u).sub(u));
    let num = g.mul(Fx { raw: 32_000_000 });
    let den = Fx { raw: 5_000_000 }.sub(g.mul(Fx { raw: 8_000_000 }));
    num.div(den).clamp(Fx::zero(), Fx::one())
}

/// Applies a sign to an unsigned wide magnitude and clips into raw range.
fn sign_result(negative: bool, q: u128) -> (r: Fx)
    ensures
        negative ==> r@ == clip(-(q as int)),
        !negative ==> r@ == clip(q as int),
{
    if negative {
        if q >= 9223372036854775807u128 {
            Fx { raw: RAW_MIN }
        } else {
            Fx { raw: -((q as i64)) }
        }
    } else {
        if q >= 9223372036854775807u128 {
            Fx { raw: RAW_MAX }
        } else {
            Fx { raw: q as i64 }
        }
    }
}

/// Clips a wide intermediate into the raw range.
fn clip_exec(x: i128) -> (r: i64)
    ensures
        r as int == clip(x as int),
{
    if x > RAW_MAX as i128 {
        RAW_MAX
    } else if x < RAW_MIN as i128 {
        RAW_MIN
    } else {
        x as i64
    }
}

} // verus!
