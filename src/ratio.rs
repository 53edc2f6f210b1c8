//! Exact rational numbers for specifications.
use vstd::prelude::*;

verus! {

/// A rational number `num / den`, compared by cross-multiplication.
/// Every ratio the library builds has `den > 0`.
pub struct Ratio {
    pub num: int,
    pub den: int,
}

impl Ratio {
    pub open spec fn from_int(i: int) -> Ratio {
        Ratio { num: i, den: 1 }
    }

    pub open spec fn frac(num: int, den: int) -> Ratio {
        Ratio { num, den }
    }

    /// The two ratios denote the same number.
    pub open spec fn eqv(self, o: Ratio) -> bool {
        self.num * o.den == o.num * self.den
    }

    pub open spec fn plus(self, o: Ratio) -> Ratio {
        Ratio { num: self.num * o.den + o.num * self.den, den: self.den * o.den }
    }

    pub open spec fn minus(self, o: Ratio) -> Ratio {
        Ratio { num: self.num * o.den - o.num * self.den, den: self.den * o.den }
    }

    pub open spec fn times(self, o: Ratio) -> Ratio {
        Ratio { num: self.num * o.num, den: self.den * o.den }
    }

    pub open spec fn over(self, o: Ratio) -> Ratio {
        Ratio { num: self.num * o.den, den: self.den * o.num }
    }

    pub open spec fn half(self) -> Ratio {
        Ratio { num: self.num, den: 2 * self.den }
    }
}

/// `eqv` is transitive through a middle term with a positive denominator.
pub proof fn lemma_eqv_trans(a: Ratio, b: Ratio, c: Ratio)
    requires
        b.den > 0,
        a.eqv(b),
        b.eqv(c),
    ensures
        a.eqv(c),
{
    assert(a.num * c.den * b.den == c.num * a.den * b.den) by (nonlinear_arith)
        requires
            a.num * b.den == b.num * a.den,
            b.num * c.den == c.num * b.den,
    ;
    assert(a.num * c.den == c.num * a.den) by (nonlinear_arith)
        requires
            a.num * c.den * b.den == c.num * a.den * b.den,
            b.den > 0,
    ;
}

/// `eqv` is symmetric.
pub proof fn lemma_eqv_sym(a: Ratio, b: Ratio)
    requires
        a.eqv(b),
    ensures
        b.eqv(a),
{
}

/// Multiplying both sides of an equivalence by the same ratio keeps it.
pub proof fn lemma_eqv_times(a: Ratio, b: Ratio, c: Ratio)
    requires
        a.eqv(b),
    ensures
        a.times(c).eqv(b.times(c)),
{
    assert((a.num * c.num) * (b.den * c.den) == (b.num * c.num) * (a.den * c.den))
        by (nonlinear_arith)
        requires
            a.num * b.den == b.num * a.den,
    ;
}

} // verus!
