//! Ratios of integers, the parameters along a ray.

use vstd::prelude::*;

verus! {

/// The greatest size of the numerator of a parameter at which a ray enters or
/// leaves a slab: the greatest size of a box and twice the greatest distance
/// of an origin from the centre.
pub const SLAB_NUM_MAX: i64 = 131071;

/// The greatest denominator of such a parameter: twice the greatest length of
/// a direction along an axis.
pub const SLAB_DEN_MAX: i64 = 65536;

/// The rational number `num / den`, with `den` positive.
pub struct Ratio {
    /// The numerator.
    pub num: int,
    /// The denominator.
    pub den: int,
}

impl Ratio {
    /// `self < other`, on positive denominators.
    pub open spec fn lt(self, other: Ratio) -> bool {
        self.num * other.den < other.num * self.den
    }

    /// `self <= other`, on positive denominators.
    pub open spec fn le(self, other: Ratio) -> bool {
        self.num * other.den <= other.num * self.den
    }

    /// The greater of the two, the first where they are equal.
    pub open spec fn later(self, other: Ratio) -> Ratio {
        if other.le(self) {
            self
        } else {
            other
        }
    }

    /// The lesser of the two, the first where they are equal.
    pub open spec fn sooner(self, other: Ratio) -> Ratio {
        if self.le(other) {
            self
        } else {
            other
        }
    }

    /// The ratio is one that a ray through a box gives rise to: its parts are
    /// small enough for every product taken of them.
    pub open spec fn small(self) -> bool {
        &&& -SLAB_NUM_MAX <= self.num <= SLAB_NUM_MAX
        &&& 1 <= self.den <= SLAB_DEN_MAX
    }
}

/// A ratio in machine integers.
#[derive(Clone, Copy, PartialEq, Eq, Structural, Debug)]
pub struct Fraction {
    /// The numerator.
    pub num: i64,
    /// The denominator, positive.
    pub den: i64,
}

impl View for Fraction {
    type V = Ratio;

    open spec fn view(&self) -> Ratio {
        Ratio { num: self.num as int, den: self.den as int }
    }
}

/// Bounds the product of two bounded integers.
pub proof fn lemma_product_bound(x: int, y: int, bx: int, by: int)
    by (nonlinear_arith)
    requires
        -bx <= x <= bx,
        -by <= y <= by,
    ensures
        -(bx * by) <= x * y <= bx * by,
{
}

/// `<=` on ratios passes along a chain.
pub proof fn lemma_le_transitive(a: Ratio, b: Ratio, c: Ratio)
    by (nonlinear_arith)
    requires
        a.den > 0,
        b.den > 0,
        c.den > 0,
        a.num * b.den <= b.num * a.den,
        b.num * c.den <= c.num * b.den,
    ensures
        a.num * c.den <= c.num * a.den,
{
}

impl Fraction {
    /// Whether `self` is at most `other`.
    pub(crate) fn le(&self, other: &Fraction) -> (holds: bool)
        requires
            self@.small(),
            other@.small(),
        ensures
            holds == self@.le(other@),
    {
        proof {
            lemma_product_bound(
                self.num as int,
                other.den as int,
                SLAB_NUM_MAX as int,
                SLAB_DEN_MAX as int,
            );
            lemma_product_bound(
                other.num as int,
                self.den as int,
                SLAB_NUM_MAX as int,
                SLAB_DEN_MAX as int,
            );
        }
        self.num * other.den <= other.num * self.den
    }

    /// Whether `self` is less than `other`.
    pub(crate) fn lt(&self, other: &Fraction) -> (holds: bool)
        requires
            self@.small(),
            other@.small(),
        ensures
            holds == self@.lt(other@),
    {
        proof {
            lemma_product_bound(
                self.num as int,
                other.den as int,
                SLAB_NUM_MAX as int,
                SLAB_DEN_MAX as int,
            );
            lemma_product_bound(
                other.num as int,
                self.den as int,
                SLAB_NUM_MAX as int,
                SLAB_DEN_MAX as int,
            );
        }
        self.num * other.den < other.num * self.den
    }
}

} // verus!
