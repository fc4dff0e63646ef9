//! Exact fractions, used wherever the pipeline speaks of a real quantity
//! (a duration in seconds, a frequency in hertz, an instant on the time axis).

use vstd::prelude::*;

verus! {

/// A fraction `num / den` of mathematical integers. It is meaningful when
/// `den > 0`; two fractions denote the same number when they are `same`.
pub struct Frac {
    pub num: int,
    pub den: int,
}

impl Frac {
    /// The denominator is positive.
    pub open spec fn wf(self) -> bool {
        self.den > 0
    }

    /// Both fractions denote the same number.
    pub open spec fn same(self, other: Frac) -> bool {
        self.num * other.den == other.num * self.den
    }

    /// `self <= other` as numbers.
    pub open spec fn le(self, other: Frac) -> bool {
        self.num * other.den <= other.num * self.den
    }

    /// `self < other` as numbers.
    pub open spec fn lt(self, other: Frac) -> bool {
        self.num * other.den < other.num * self.den
    }

    /// The largest integer that is not above the fraction.
    pub open spec fn floor(self) -> int {
        self.num / self.den
    }

    /// The fraction multiplied by the integer `k`.
    pub open spec fn times(self, k: int) -> Frac {
        Frac { num: self.num * k, den: self.den }
    }

    /// The difference `self - other`.
    pub open spec fn minus(self, other: Frac) -> Frac {
        Frac { num: self.num * other.den - other.num * self.den, den: self.den * other.den }
    }
}

/// Order is transitive: from `a <= b` and `b < c` follows `a < c`.
pub proof fn lemma_le_lt_trans(a: Frac, b: Frac, c: Frac)
    requires
        a.wf(),
        b.wf(),
        c.wf(),
        a.le(b),
        b.lt(c),
    ensures
        a.lt(c),
{
    assert((a.num * b.den) * c.den <= (b.num * a.den) * c.den) by (nonlinear_arith)
        requires
            a.num * b.den <= b.num * a.den,
            c.den > 0,
    ;
    assert((b.num * c.den) * a.den < (c.num * b.den) * a.den) by (nonlinear_arith)
        requires
            b.num * c.den < c.num * b.den,
            a.den > 0,
    ;
    assert((b.num * a.den) * c.den == (b.num * c.den) * a.den) by (nonlinear_arith);
    assert((a.num * b.den) * c.den == (a.num * c.den) * b.den) by (nonlinear_arith);
    assert((c.num * b.den) * a.den == (c.num * a.den) * b.den) by (nonlinear_arith);
    assert(a.num * c.den < c.num * a.den) by (nonlinear_arith)
        requires
            (a.num * c.den) * b.den < (c.num * a.den) * b.den,
            b.den > 0,
    ;
}

/// A fraction lies between its floor and the next integer:
/// `floor <= f < floor + 1`.
pub proof fn lemma_floor_bounds(f: Frac)
    requires
        f.wf(),
    ensures
        (Frac { num: f.floor(), den: 1 }).le(f),
        f.lt(Frac { num: f.floor() + 1, den: 1 }),
{
    let n = f.floor();
    assert(n * f.den <= f.num < (n + 1) * f.den) by (nonlinear_arith)
        requires
            f.den > 0,
            n == f.num / f.den,
    ;
}

/// A fraction with a 32-bit numerator and a positive 32-bit denominator.
#[derive(Clone, Copy, Debug)]
pub struct Rational {
    num: i32,
    den: u32,
}

impl View for Rational {
    type V = Frac;

    closed spec fn view(&self) -> Frac {
        Frac { num: self.num as int, den: self.den as int }
    }
}

impl Rational {
    #[verifier::type_invariant]
    spec fn positive_denominator(self) -> bool {
        self.den > 0
    }

    /// The fraction `num / den`, or `None` when `den` is zero.
    pub fn new(num: i32, den: u32) -> (r: Option<Rational>)
        ensures
            den == 0 <==> r is None,
            r matches Some(q) ==> q@ == (Frac { num: num as int, den: den as int }),
    {
        if den == 0 {
            None
        } else {
            Some(Rational { num, den })
        }
    }

    /// The whole number `n`.
    pub fn from_int(n: i32) -> (r: Rational)
        ensures
            r@ == (Frac { num: n as int, den: 1 }),
    {
        Rational { num: n, den: 1 }
    }

    /// The numerator.
    pub fn numerator(&self) -> (n: i32)
        ensures
            n == self@.num,
    {
        self.num
    }

    /// The denominator, which is never zero.
    pub fn denominator(&self) -> (d: u32)
        ensures
            d == self@.den,
            d > 0,
    {
        proof {
            use_type_invariant(self);
        }
        self.den
    }
}

} // verus!
