use vstd::prelude::*;

verus! {

/// An exact rational number `num / den` with a positive denominator.
///
/// The fraction is not kept in lowest terms: two values with different
/// fields may stand for the same number, and `==` compares numbers.
#[derive(Clone, Copy, Debug)]
pub struct Ratio {
    pub num: i64,
    pub den: i64,
}

/// The sum of two fractions, on their fields, before any reduction.
pub open spec fn sum_pair(a: Ratio, b: Ratio) -> (int, int) {
    (a.num * b.den + b.num * a.den, a.den * b.den)
}

/// The product of two fractions, on their fields.
pub open spec fn product_pair(a: Ratio, b: Ratio) -> (int, int) {
    (a.num * b.num, a.den * b.den)
}

/// The number halfway across a span: `a + b / 2`, on the fields.
pub open spec fn half_across_pair(a: Ratio, b: Ratio) -> (int, int) {
    (2 * (a.num * b.den) + b.num * a.den, 2 * (a.den * b.den))
}

/// The opposite of a fraction, on its fields.
pub open spec fn neg_pair(a: Ratio) -> (int, int) {
    (-a.num, a.den as int)
}

/// `2 / a`, on the fields, with the sign moved to the numerator; its
/// denominator is zero exactly when `a` is zero.
pub open spec fn two_over_pair(a: Ratio) -> (int, int) {
    if a.num < 0 {
        (-2 * a.den, -a.num)
    } else {
        (2 * a.den, a.num as int)
    }
}

/// Whether a pair of integers can be held by a `Ratio` as it stands.
pub open spec fn fits(p: (int, int)) -> bool {
    i64::MIN <= p.0 <= i64::MAX && 0 < p.1 <= i64::MAX
}

/// The `Ratio` with the given fields (meaningful where `fits` holds).
pub open spec fn of_pair(p: (int, int)) -> Ratio {
    Ratio { num: p.0 as i64, den: p.1 as i64 }
}

/// A product of two `i64` values lies well inside `i128`.
proof fn lemma_mul_i64_bound(a: i64, b: i64)
    ensures
        -0x4000_0000_0000_0000_0000_0000_0000_0000 <= a * b <= 0x4000_0000_0000_0000_0000_0000_0000_0000,
{
    assert(-0x8000_0000_0000_0000 <= a <= 0x7fff_ffff_ffff_ffff);
    assert(-0x8000_0000_0000_0000 <= b <= 0x7fff_ffff_ffff_ffff);
    assert(-0x4000_0000_0000_0000_0000_0000_0000_0000 <= a * b <= 0x4000_0000_0000_0000_0000_0000_0000_0000)
        by (nonlinear_arith)
        requires
            -0x8000_0000_0000_0000 <= a <= 0x7fff_ffff_ffff_ffff,
            -0x8000_0000_0000_0000 <= b <= 0x7fff_ffff_ffff_ffff,
    ;
}

/// A product of an `i64` with a positive factor no larger than `2^62`.
proof fn lemma_mul_small_factor(a: i64, b: i64)
    requires
        0 < b <= 0x4000_0000_0000_0000,
    ensures
        -0x2000_0000_0000_0000_0000_0000_0000_0000 <= a * b <= 0x2000_0000_0000_0000_0000_0000_0000_0000,
{
    assert(-0x2000_0000_0000_0000_0000_0000_0000_0000 <= a * b <= 0x2000_0000_0000_0000_0000_0000_0000_0000)
        by (nonlinear_arith)
        requires
            -0x8000_0000_0000_0000 <= a <= 0x7fff_ffff_ffff_ffff,
            0 < b <= 0x4000_0000_0000_0000,
    ;
}

/// A product of an `i64` with a positive `i64` stays clear of the ends of
/// `i128`, so that two of them can be added.
proof fn lemma_mul_by_den_bound(a: i64, b: i64)
    requires
        0 < b,
    ensures
        -0x3fff_ffff_ffff_ffff_8000_0000_0000_0000 <= a * b <= 0x3fff_ffff_ffff_ffff_8000_0000_0000_0000,
{
    assert(-0x3fff_ffff_ffff_ffff_8000_0000_0000_0000 <= a * b <= 0x3fff_ffff_ffff_ffff_8000_0000_0000_0000)
        by (nonlinear_arith)
        requires
            -0x8000_0000_0000_0000 <= a <= 0x7fff_ffff_ffff_ffff,
            0 < b <= 0x7fff_ffff_ffff_ffff,
    ;
}

proof fn lemma_mul_pos(a: i64, b: i64)
    requires
        a > 0,
        b > 0,
    ensures
        a * b > 0,
{
    assert(a * b > 0) by (nonlinear_arith)
        requires
            a > 0,
            b > 0,
    ;
}

impl Ratio {
    /// The denominator is positive.
    pub open spec fn wf(self) -> bool {
        self.den > 0
    }

    /// The sum that `add` returns.
    pub open spec fn plus(self, o: Ratio) -> Ratio {
        of_pair(sum_pair(self, o))
    }

    /// The product that `mul` returns.
    pub open spec fn times(self, o: Ratio) -> Ratio {
        of_pair(product_pair(self, o))
    }

    /// The number that `half_across` returns.
    pub open spec fn half_across_spec(self, span: Ratio) -> Ratio {
        of_pair(half_across_pair(self, span))
    }

    /// The opposite that `neg` returns.
    pub open spec fn negated(self) -> Ratio {
        of_pair(neg_pair(self))
    }

    /// The number `2 / self` that `two_over` returns.
    pub open spec fn two_over_spec(self) -> Ratio {
        of_pair(two_over_pair(self))
    }

    /// Both fractions stand for the same number.
    pub open spec fn same_value(self, o: Ratio) -> bool {
        self.num * o.den == o.num * self.den
    }

    pub fn new(num: i64, den: i64) -> (r: Ratio)
        requires
            den > 0,
        ensures
            r.num == num,
            r.den == den,
            r.wf(),
    {
        Ratio { num, den }
    }

    /// The whole number `n`, as `n / 1`.
    pub fn from_int(n: i64) -> (r: Ratio)
        ensures
            r.num == n,
            r.den == 1,
            r.wf(),
    {
        Ratio { num: n, den: 1 }
    }

    /// Exact sum, with the product of the denominators as denominator.
    pub fn add(self, o: Ratio) -> (r: Ratio)
        requires
            self.wf(),
            o.wf(),
            fits(sum_pair(self, o)),
        ensures
            r == self.plus(o),
            r.wf(),
    {
        proof {
            lemma_mul_i64_bound(self.num, o.den);
            lemma_mul_i64_bound(o.num, self.den);
            lemma_mul_i64_bound(self.den, o.den);
        }
        let n: i128 = (self.num as i128) * (o.den as i128) + (o.num as i128) * (self.den as i128);
        let d: i128 = (self.den as i128) * (o.den as i128);
        Ratio { num: n as i64, den: d as i64 }
    }

    /// Exact product, with the product of the denominators as denominator.
    pub fn mul(self, o: Ratio) -> (r: Ratio)
        requires
            self.wf(),
            o.wf(),
            fits(product_pair(self, o)),
        ensures
            r == self.times(o),
            r.wf(),
    {
        proof {
            lemma_mul_i64_bound(self.num, o.num);
            lemma_mul_i64_bound(self.den, o.den);
        }
        let n: i128 = (self.num as i128) * (o.num as i128);
        let d: i128 = (self.den as i128) * (o.den as i128);
        Ratio { num: n as i64, den: d as i64 }
    }

    /// `self + span / 2`: the middle of the span of length `span` that starts
    /// at `self`.
    pub fn half_across(self, span: Ratio) -> (r: Ratio)
        requires
            self.wf(),
            span.wf(),
            fits(half_across_pair(self, span)),
        ensures
            r == self.half_across_spec(span),
            r.wf(),
    {
        proof {
            lemma_mul_i64_bound(self.den, span.den);
            assert(self.den <= 0x4000_0000_0000_0000 && span.den <= 0x4000_0000_0000_0000)
                by (nonlinear_arith)
                requires
                    self.den > 0,
                    span.den > 0,
                    2 * (self.den * span.den) <= 0x7fff_ffff_ffff_ffff,
            ;
            lemma_mul_small_factor(self.num, span.den);
            lemma_mul_small_factor(span.num, self.den);
        }
        let p: i128 = (self.num as i128) * (span.den as i128);
        let q: i128 = (self.den as i128) * (span.den as i128);
        let n: i128 = 2 * p + (span.num as i128) * (self.den as i128);
        let d: i128 = 2 * q;
        Ratio { num: n as i64, den: d as i64 }
    }

    pub fn neg(self) -> (r: Ratio)
        requires
            self.wf(),
            fits(neg_pair(self)),
        ensures
            r == self.negated(),
            r.wf(),
    {
        Ratio { num: -self.num, den: self.den }
    }

    /// `2 / self`; `self` is not zero, as `fits` asks of the result.
    pub fn two_over(self) -> (r: Ratio)
        requires
            self.wf(),
            fits(two_over_pair(self)),
        ensures
            r == self.two_over_spec(),
            r.wf(),
    {
        let d2: i128 = 2 * (self.den as i128);
        if self.num < 0 {
            Ratio { num: (-d2) as i64, den: -self.num }
        } else {
            Ratio { num: d2 as i64, den: self.num }
        }
    }

    /// `add`, or `None` where the sum does not fit.
    pub fn checked_add(self, o: Ratio) -> (r: Option<Ratio>)
        requires
            self.wf(),
            o.wf(),
        ensures
            r is Some <==> fits(sum_pair(self, o)),
            r matches Some(v) ==> v == self.plus(o) && v.wf(),
    {
        proof {
            lemma_mul_i64_bound(self.num, o.den);
            lemma_mul_i64_bound(o.num, self.den);
            lemma_mul_i64_bound(self.den, o.den);
            lemma_mul_by_den_bound(self.num, o.den);
            lemma_mul_by_den_bound(o.num, self.den);
            lemma_mul_pos(self.den, o.den);
        }
        let n: i128 = (self.num as i128) * (o.den as i128) + (o.num as i128) * (self.den as i128);
        let d: i128 = (self.den as i128) * (o.den as i128);
        if n < i64::MIN as i128 || n > i64::MAX as i128 || d > i64::MAX as i128 {
            None
        } else {
            Some(Ratio { num: n as i64, den: d as i64 })
        }
    }

    /// `mul`, or `None` where the product does not fit.
    pub fn checked_mul(self, o: Ratio) -> (r: Option<Ratio>)
        requires
            self.wf(),
            o.wf(),
        ensures
            r is Some <==> fits(product_pair(self, o)),
            r matches Some(v) ==> v == self.times(o) && v.wf(),
    {
        proof {
            lemma_mul_i64_bound(self.num, o.num);
            lemma_mul_i64_bound(self.den, o.den);
            lemma_mul_pos(self.den, o.den);
        }
        let n: i128 = (self.num as i128) * (o.num as i128);
        let d: i128 = (self.den as i128) * (o.den as i128);
        if n < i64::MIN as i128 || n > i64::MAX as i128 || d > i64::MAX as i128 {
            None
        } else {
            Some(Ratio { num: n as i64, den: d as i64 })
        }
    }

    /// `neg`, or `None` for the one numerator whose opposite does not fit.
    pub fn checked_neg(self) -> (r: Option<Ratio>)
        requires
            self.wf(),
        ensures
            r is Some <==> fits(neg_pair(self)),
            r matches Some(v) ==> v == self.negated() && v.wf(),
    {
        if self.num == i64::MIN {
            None
        } else {
            Some(self.neg())
        }
    }

    /// `two_over`, or `None` where `self` is zero or `2 / self` does not fit.
    pub fn checked_two_over(self) -> (r: Option<Ratio>)
        requires
            self.wf(),
        ensures
            r is Some <==> fits(two_over_pair(self)),
            r matches Some(v) ==> v == self.two_over_spec() && v.wf(),
    {
        if self.num == 0 || self.num == i64::MIN || (self.num > 0 && self.den > i64::MAX / 2) || (
        self.num < 0 && self.den > i64::MAX / 2 + 1) {
            None
        } else {
            Some(self.two_over())
        }
    }
}

impl PartialEq for Ratio {
    /// Equal as numbers, whatever the denominators.
    fn eq(&self, o: &Ratio) -> (r: bool)
        ensures
            r == self.same_value(*o),
    {
        proof {
            lemma_mul_i64_bound(self.num, o.den);
            lemma_mul_i64_bound(o.num, self.den);
        }
        (self.num as i128) * (o.den as i128) == (o.num as i128) * (self.den as i128)
    }
}

impl vstd::std_specs::cmp::PartialEqSpecImpl for Ratio {
    open spec fn obeys_eq_spec() -> bool {
        true
    }

    open spec fn eq_spec(&self, o: &Ratio) -> bool {
        self.same_value(*o)
    }
}

} // verus!
