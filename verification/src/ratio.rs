//! Exact numbers: ratios of integers, and the real numbers they stand for.
use vstd::prelude::*;

verus! {

/// The real number `num / den`.
pub open spec fn ratio(num: int, den: int) -> real {
    (num as real) / (den as real)
}

/// A number that a caller gives: a ratio of an integer and a positive
/// integer. It stands for the real number `self@`.
#[derive(Clone, Copy, Debug)]
pub struct Ratio {
    num: i32,
    den: u16,
}

/// A number that the library gives back: a ratio of two wide integers,
/// which is not brought to lowest terms. The functions that make one say
/// that its `den` is positive. It stands for the real number `self@`.
#[derive(Clone, Copy, Debug)]
pub struct Exact {
    pub num: i128,
    pub den: i128,
}

impl View for Ratio {
    type V = real;

    closed spec fn view(&self) -> real {
        ratio(self.num as int, self.den as int)
    }
}

impl View for Exact {
    type V = real;

    open spec fn view(&self) -> real {
        ratio(self.num as int, self.den as int)
    }
}

/// A ratio with a positive denominator is zero where its numerator is, and
/// has the sign of its numerator.
pub proof fn lemma_ratio_sign(num: int, den: int)
    by (nonlinear_arith)
    requires
        den > 0,
    ensures
        num == 0 <==> ratio(num, den) == 0real,
        num > 0 <==> ratio(num, den) > 0real,
{
}

/// A product of two numbers that are not zero is not zero.
pub proof fn lemma_product_not_zero(a: int, b: int)
    by (nonlinear_arith)
    requires
        a != 0,
        b != 0,
    ensures
        a * b != 0,
{
}

/// A product of two positive numbers is positive.
pub proof fn lemma_product_positive(a: int, b: int)
    by (nonlinear_arith)
    requires
        a > 0,
        b > 0,
    ensures
        a * b > 0,
{
}

/// Multiplying both parts of a ratio by the same number leaves the ratio.
pub proof fn lemma_ratio_scaled(a: int, b: int, m: int)
    by (nonlinear_arith)
    requires
        b != 0,
        m != 0,
    ensures
        ratio(a * m, b * m) == ratio(a, b),
        ratio(m * a, m * b) == ratio(a, b),
{
}

/// The product of two ratios.
pub proof fn lemma_ratio_product(a: int, b: int, c: int, d: int)
    by (nonlinear_arith)
    requires
        b != 0,
        d != 0,
    ensures
        ratio(a, b) * ratio(c, d) == ratio(a * c, b * d),
{
}

/// The sum of two ratios.
pub proof fn lemma_ratio_sum(a: int, b: int, c: int, d: int)
    requires
        b != 0,
        d != 0,
    ensures
        ratio(a, b) + ratio(c, d) == ratio(a * d + c * b, b * d),
{
    lemma_product_not_zero(b, d);
    lemma_ratio_scaled(a, b, d);
    lemma_ratio_scaled(c, d, b);
    assert(d * b == b * d) by (nonlinear_arith);
    lemma_ratio_sum_over(a * d, c * b, b * d);
}

/// The difference of two ratios.
pub proof fn lemma_ratio_difference(a: int, b: int, c: int, d: int)
    requires
        b != 0,
        d != 0,
    ensures
        ratio(a, b) - ratio(c, d) == ratio(a * d - c * b, b * d),
{
    lemma_ratio_sum_over(c, c, d);
    lemma_ratio_sum(a, b, -c, d);
    assert((-c) * b == -(c * b)) by (nonlinear_arith);
}

/// The sum of two ratios over one denominator.
pub proof fn lemma_ratio_sum_over(a: int, c: int, d: int)
    by (nonlinear_arith)
    requires
        d != 0,
    ensures
        ratio(a, d) + ratio(c, d) == ratio(a + c, d),
        ratio(-a, d) == -ratio(a, d),
{
}

/// Half of a ratio, as a ratio.
pub proof fn lemma_halved(a: int, b: int)
    by (nonlinear_arith)
    requires
        b > 0,
    ensures
        ratio(a, 2 * b) == ratio(a, b) / 2real,
{
}

/// A multiple of a ratio, as a ratio.
pub proof fn lemma_ratio_multiple(m: int, a: int, b: int)
    by (nonlinear_arith)
    requires
        b != 0,
    ensures
        ratio(m * a, b) == (m as real) * ratio(a, b),
{
}

/// Multiplying by a reciprocal divides.
pub proof fn lemma_times_reciprocal(x: real, k: real)
    by (nonlinear_arith)
    requires
        k != 0real,
    ensures
        x * (1real / k) == x / k,
        (-x) * (1real / k) == -(x / k),
{
}

impl Ratio {
    /// The denominator of a ratio is positive.
    #[verifier::type_invariant]
    spec fn den_is_positive(self) -> bool {
        self.den > 0
    }

    /// The number `num / den`.
    pub fn new(num: i32, den: u16) -> (r: Ratio)
        requires
            den > 0,
        ensures
            r@ == ratio(num as int, den as int),
    {
        Ratio { num, den }
    }

    /// The whole number `n`.
    pub fn whole(n: i32) -> (r: Ratio)
        ensures
            r@ == n as real,
    {
        assert(ratio(n as int, 1) == n as real) by (nonlinear_arith);
        Ratio { num: n, den: 1 }
    }

    /// The numerator and the denominator that the number is held as.
    pub fn parts(&self) -> (parts: (i32, u16))
        ensures
            parts.1 > 0,
            self@ == ratio(parts.0 as int, parts.1 as int),
    {
        proof {
            use_type_invariant(self);
        }
        (self.num, self.den)
    }

    /// Whether the number is zero.
    pub fn is_zero(&self) -> (zero: bool)
        ensures
            zero <==> self@ == 0real,
    {
        proof {
            use_type_invariant(self);
            lemma_ratio_sign(self.num as int, self.den as int);
        }
        self.num == 0
    }
}

} // verus!
