//! Exact fixed-point numbers for physical quantities.
//!
//! A `Real` holds a whole number of trillionths of a unit. Every operation is
//! total: results that leave the representable range saturate at its bounds,
//! and products and quotients are rounded toward zero.
use vstd::prelude::*;
use vstd::arithmetic::div_mod::lemma_hoist_over_denominator;
use vstd::arithmetic::div_mod::lemma_div_is_ordered;
use vstd::arithmetic::div_mod::lemma_fundamental_div_mod;

verus! {

/// Raw units in one whole unit: a `Real` carries twelve decimal places.
pub const SCALE: i128 = 1_000_000_000_000;

/// Largest raw magnitude: values lie within plus or minus a trillion units.
pub const RAW_LIMIT: i128 = 1_000_000_000_000_000_000_000_000;

pub open spec fn in_range(x: int) -> bool {
    -RAW_LIMIT <= x <= RAW_LIMIT
}

/// Saturation at the representable bounds.
pub open spec fn clamp(x: int) -> int {
    if x > RAW_LIMIT {
        RAW_LIMIT as int
    } else if x < -RAW_LIMIT {
        -RAW_LIMIT
    } else {
        x
    }
}

pub open spec fn abs(x: int) -> int {
    if x < 0 {
        -x
    } else {
        x
    }
}

pub open spec fn with_sign(negative: bool, magnitude: int) -> int {
    if negative {
        -magnitude
    } else {
        magnitude
    }
}

/// Raw value of the product of two raw values, rounded toward zero.
pub open spec fn mul_raw(a: int, b: int) -> int {
    with_sign((a < 0) != (b < 0), (abs(a) * abs(b)) / (SCALE as int))
}

/// Raw value of the quotient of two raw values, rounded toward zero.
pub open spec fn div_raw(a: int, b: int) -> int {
    with_sign((a < 0) != (b < 0), (abs(a) * SCALE) / abs(b))
}

/// `r` is the square root of the raw value `a`, rounded down.
pub open spec fn is_sqrt_raw(a: int, r: int) -> bool {
    0 <= r && r * r <= a * SCALE && a * SCALE < (r + 1) * (r + 1)
}

/// Raw value of the square root of a non-negative raw value, rounded down.
pub open spec fn sqrt_raw(a: int) -> int {
    choose|r: int| is_sqrt_raw(a, r)
}

/// The raw value of a whole number of units.
pub open spec fn whole(n: int) -> int {
    clamp(n * SCALE)
}

/// Zero times or over anything is zero.
pub proof fn lemma_zero_ops(k: int)
    ensures
        mul_raw(0, k) == 0,
        k != 0 ==> div_raw(0, k) == 0,
{
    assert(0 * abs(k) == 0);
    assert(abs(0) * SCALE == 0);
}

/// A product of non-negative values is non-negative.
pub proof fn lemma_mul_nonneg(a: int, b: int)
    requires
        a >= 0,
        b >= 0,
    ensures
        mul_raw(a, b) >= 0,
        clamp(mul_raw(a, b)) >= 0,
{
    assert(abs(a) * abs(b) >= 0) by (nonlinear_arith)
        requires
            a >= 0,
            b >= 0,
    ;
}

/// Multiplying by a non-negative factor keeps the order of non-negative values.
pub proof fn lemma_mul_monotone(a: int, b: int, k: int)
    requires
        0 <= a <= b,
        k >= 0,
    ensures
        mul_raw(a, k) <= mul_raw(b, k),
        clamp(mul_raw(a, k)) <= clamp(mul_raw(b, k)),
{
    assert(a * k <= b * k) by (nonlinear_arith)
        requires
            0 <= a <= b,
            k >= 0,
    ;
    assert(a * k >= 0) by (nonlinear_arith)
        requires
            0 <= a,
            k >= 0,
    ;
    lemma_div_is_ordered(a * k, b * k, SCALE as int);
}

/// A mass flow from non-negative area, density and velocity is non-negative.
pub proof fn lemma_mdot_nonneg(cda: int, density: int, velocity: int)
    requires
        cda >= 0,
        density >= 0,
        velocity >= 0,
    ensures
        clamp(mul_raw(clamp(mul_raw(velocity, density)), cda)) >= 0,
{
    lemma_mul_nonneg(velocity, density);
    lemma_mul_nonneg(clamp(mul_raw(velocity, density)), cda);
}

proof fn lemma_sqrt_unique(a: int, r1: int, r2: int)
    requires
        is_sqrt_raw(a, r1),
        is_sqrt_raw(a, r2),
    ensures
        r1 == r2,
{
    if r1 < r2 {
        assert((r1 + 1) * (r1 + 1) <= r2 * r2) by (nonlinear_arith)
            requires
                0 <= r1,
                r1 + 1 <= r2,
        ;
    } else if r2 < r1 {
        assert((r2 + 1) * (r2 + 1) <= r1 * r1) by (nonlinear_arith)
            requires
                0 <= r2,
                r2 + 1 <= r1,
        ;
    }
}

/// A fixed-point number with twelve decimal places.
#[derive(Clone, Copy, Debug, PartialEq, Eq, Structural)]
pub struct Real {
    raw: i128,
}

impl View for Real {
    type V = int;

    closed spec fn view(&self) -> int {
        self.raw as int
    }
}

impl Real {
    #[verifier::type_invariant]
    spec fn inv(self) -> bool {
        in_range(self.raw as int)
    }

    /// The value's raw units always lie in the representable range.
    pub fn lemma_range(&self)
        ensures
            in_range(self@),
    {
        proof {
            use_type_invariant(self);
        }
    }

    /// Two values are the same exactly when their raw units are.
    pub broadcast proof fn lemma_view_eq(a: Real, b: Real)
        ensures
            (#[trigger] a.view() == #[trigger] b.view()) <==> a == b,
    {
    }

    pub fn zero() -> (r: Real)
        ensures
            r@ == 0,
    {
        Real { raw: 0 }
    }

    /// The value with the given raw units, saturated.
    pub fn from_raw(raw: i128) -> (r: Real)
        ensures
            r@ == clamp(raw as int),
    {
        if raw > RAW_LIMIT {
            Real { raw: RAW_LIMIT }
        } else if raw < -RAW_LIMIT {
            Real { raw: -RAW_LIMIT }
        } else {
            Real { raw }
        }
    }

    /// A whole number of units, saturated.
    pub fn from_int(n: i64) -> (r: Real)
        ensures
            r@ == whole(n as int),
    {
        Real::from_raw(n as i128 * SCALE)
    }

    /// The value in raw units (trillionths).
    pub fn raw(&self) -> (r: i128)
        ensures
            r == self@,
            in_range(r as int),
    {
        proof {
            use_type_invariant(self);
        }
        self.raw
    }

    pub fn add(&self, o: &Real) -> (r: Real)
        ensures
            r@ == clamp(self@ + o@),
    {
        proof {
            use_type_invariant(self);
            use_type_invariant(o);
        }
        Real::from_raw(self.raw + o.raw)
    }

    pub fn sub(&self, o: &Real) -> (r: Real)
        ensures
            r@ == clamp(self@ - o@),
    {
        proof {
            use_type_invariant(self);
            use_type_invariant(o);
        }
        Real::from_raw(self.raw - o.raw)
    }

    pub fn neg(&self) -> (r: Real)
        ensures
            r@ == -self@,
    {
        proof {
            use_type_invariant(self);
        }
        Real { raw: -self.raw }
    }

    pub fn mul(&self, o: &Real) -> (r: Real)
        ensures
            r@ == clamp(mul_raw(self@, o@)),
    {
        proof {
            use_type_invariant(self);
            use_type_invariant(o);
        }
        let a: u128 = if self.raw < 0 { (-self.raw) as u128 } else { self.raw as u128 };
        let b: u128 = if o.raw < 0 { (-o.raw) as u128 } else { o.raw as u128 };
        let s: u128 = SCALE as u128;
        let a1: u128 = a / s;
        let a0: u128 = a % s;
        proof {
            lemma_fundamental_div_mod(a as int, s as int);
            assert(a1 <= 1_000_000_000_000u128);
            assert(a1 * b <= 1_000_000_000_000 * 1_000_000_000_000_000_000_000_000) by (nonlinear_arith)
                requires
                    a1 <= 1_000_000_000_000u128,
                    b <= 1_000_000_000_000_000_000_000_000u128,
            ;
            assert(a0 * b <= 1_000_000_000_000 * 1_000_000_000_000_000_000_000_000) by (nonlinear_arith)
                requires
                    a0 < 1_000_000_000_000u128,
                    b <= 1_000_000_000_000_000_000_000_000u128,
            ;
        }
        let low: u128 = a0 * b / s;
        let m: u128 = a1 * b + low;
        proof {
            assert(a * b == (a0 * b) + (a1 * b) * s) by (nonlinear_arith)
                requires
                    a == a1 * s + a0,
            ;
            lemma_hoist_over_denominator((a0 * b) as int, (a1 * b) as int, s as nat);
            assert(m as int == (abs(self@) * abs(o@)) / (SCALE as int));
        }
        let clamped: i128 = if m > RAW_LIMIT as u128 { RAW_LIMIT } else { m as i128 };
        let negative = (self.raw < 0) != (o.raw < 0);
        if negative {
            Real { raw: -clamped }
        } else {
            Real { raw: clamped }
        }
    }

    pub fn div(&self, o: &Real) -> (r: Real)
        requires
            o@ != 0,
        ensures
            r@ == clamp(div_raw(self@, o@)),
    {
        proof {
            use_type_invariant(self);
            use_type_invariant(o);
        }
        let a: u128 = if self.raw < 0 { (-self.raw) as u128 } else { self.raw as u128 };
        let b: u128 = if o.raw < 0 { (-o.raw) as u128 } else { o.raw as u128 };
        let m: u128 = a * (SCALE as u128) / b;
        proof {
            lemma_div_is_ordered(0, (a * SCALE) as int, b as int);
        }
        let clamped: i128 = if m > RAW_LIMIT as u128 { RAW_LIMIT } else { m as i128 };
        let negative = (self.raw < 0) != (o.raw < 0);
        if negative {
            Real { raw: -clamped }
        } else {
            Real { raw: clamped }
        }
    }

    /// Square root, rounded down.
    pub fn sqrt(&self) -> (r: Real)
        requires
            self@ >= 0,
        ensures
            r@ == sqrt_raw(self@),
            is_sqrt_raw(self@, r@),
    {
        proof {
            use_type_invariant(self);
        }
        let n: u128 = (self.raw as u128) * (SCALE as u128);
        let mut lo: u128 = 0;
        let mut hi: u128 = 1_000_000_000_000_000_001;
        proof {
            assert(n <= 1_000_000_000_000_000_000_000_000_000_000_000_000u128);
            assert(hi * hi > 1_000_000_000_000_000_000_000_000_000_000_000_000u128);
        }
        while hi - lo > 1
            invariant
                lo < hi <= 1_000_000_000_000_000_001,
                lo * lo <= n,
                n < hi * hi,
            decreases hi - lo,
        {
            let mid: u128 = lo + (hi - lo) / 2;
            proof {
                assert(mid * mid <= 1_000_000_000_000_000_001 * 1_000_000_000_000_000_001) by (nonlinear_arith)
                    requires
                        mid <= 1_000_000_000_000_000_001u128,
                ;
            }
            if mid * mid <= n {
                lo = mid;
            } else {
                hi = mid;
            }
        }
        proof {
            assert(hi == lo + 1);
            assert(is_sqrt_raw(self@, lo as int));
            let c = sqrt_raw(self@);
            lemma_sqrt_unique(self@, c, lo as int);
        }
        Real { raw: lo as i128 }
    }

    pub fn lt(&self, o: &Real) -> (r: bool)
        ensures
            r == (self@ < o@),
    {
        self.raw < o.raw
    }

    pub fn le(&self, o: &Real) -> (r: bool)
        ensures
            r == (self@ <= o@),
    {
        self.raw <= o.raw
    }
}

} // verus!
