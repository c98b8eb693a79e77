//! Reducing the densities met along a ray to one intensity.

use vstd::prelude::*;
use crate::ratio::Ratio;
use crate::style::VolumeProjectionRenderingStyle;

verus! {

/// The lowest of the densities, starting from the greatest density there is.
pub open spec fn lowest(densities: Seq<u8>) -> int
    decreases densities.len(),
{
    if densities.len() == 0 {
        255
    } else {
        let before = lowest(densities.drop_last());
        if densities.last() < before {
            densities.last() as int
        } else {
            before
        }
    }
}

/// The highest of the densities, starting from the least density there is.
pub open spec fn highest(densities: Seq<u8>) -> int
    decreases densities.len(),
{
    if densities.len() == 0 {
        0
    } else {
        let before = highest(densities.drop_last());
        if densities.last() > before {
            densities.last() as int
        } else {
            before
        }
    }
}

/// The sum of the densities.
pub open spec fn total(densities: Seq<u8>) -> int
    decreases densities.len(),
{
    if densities.len() == 0 {
        0
    } else {
        total(densities.drop_last()) + densities.last()
    }
}

/// The intensity that a style makes of the densities: their minimum, their
/// maximum, or their sum over their number.
pub open spec fn reduced(style: VolumeProjectionRenderingStyle, densities: Seq<u8>) -> Ratio {
    match style {
        VolumeProjectionRenderingStyle::MinimumIntensityProjection => Ratio {
            num: lowest(densities),
            den: 1,
        },
        VolumeProjectionRenderingStyle::MaximumIntensityProjection => Ratio {
            num: highest(densities),
            den: 1,
        },
        VolumeProjectionRenderingStyle::AverageIntensityProjection => Ratio {
            num: total(densities),
            den: densities.len() as int,
        },
    }
}

/// An intensity on the scale of the densities, from 0 to 255, kept as an
/// exact ratio.
#[derive(Clone, Copy, Debug)]
pub struct Intensity {
    numerator: u128,
    denominator: u128,
}

impl View for Intensity {
    type V = Ratio;

    closed spec fn view(&self) -> Ratio {
        Ratio { num: self.numerator as int, den: self.denominator as int }
    }
}

impl Intensity {
    #[verifier::type_invariant]
    spec fn on_scale(self) -> bool {
        &&& 1 <= self.denominator
        &&& self.numerator <= 255 * self.denominator
    }

    /// The numerator of the ratio.
    pub fn numerator(&self) -> (n: u128)
        ensures
            n == self@.num,
    {
        self.numerator
    }

    /// The denominator of the ratio, at least one.
    pub fn denominator(&self) -> (d: u128)
        ensures
            d == self@.den,
            d >= 1,
    {
        proof {
            use_type_invariant(self);
        }
        self.denominator
    }

    /// The intensity as one of the 256 levels of a colour channel, rounded
    /// down.
    pub fn level(&self) -> (l: u8)
        ensures
            l == self@.num / self@.den,
    {
        proof {
            use_type_invariant(self);
        }
        let quotient: u128 = self.numerator / self.denominator;
        assert(quotient <= 255) by (nonlinear_arith)
            requires
                quotient == self.numerator / self.denominator,
                1 <= self.denominator,
                self.numerator <= 255 * self.denominator,
        ;
        quotient as u8
    }
}

/// No density lies below the lowest, and the lowest is one of them or, of
/// none, 255.
pub proof fn lemma_lowest(densities: Seq<u8>)
    ensures
        0 <= lowest(densities) <= 255,
        forall|i: int| 0 <= i < densities.len() ==> lowest(densities) <= #[trigger] densities[i],
        densities.len() > 0 ==> exists|i: int|
            0 <= i < densities.len() && #[trigger] densities[i] == lowest(densities),
    decreases densities.len(),
{
    if densities.len() > 0 {
        let front = densities.drop_last();
        lemma_lowest(front);
        assert forall|i: int| 0 <= i < densities.len() implies lowest(densities)
            <= #[trigger] densities[i] by {
            if i < front.len() {
                assert(front[i] == densities[i]);
            }
        }
        if front.len() > 0 && lowest(front) <= densities.last() {
            let i = choose|i: int| 0 <= i < front.len() && #[trigger] front[i] == lowest(front);
            assert(densities[i] == lowest(densities));
        }
    }
}

/// No density lies above the highest, and the highest is one of them or, of
/// none, 0.
pub proof fn lemma_highest(densities: Seq<u8>)
    ensures
        0 <= highest(densities) <= 255,
        forall|i: int| 0 <= i < densities.len() ==> #[trigger] densities[i] <= highest(densities),
        densities.len() > 0 ==> exists|i: int|
            0 <= i < densities.len() && #[trigger] densities[i] == highest(densities),
    decreases densities.len(),
{
    if densities.len() > 0 {
        let front = densities.drop_last();
        lemma_highest(front);
        assert forall|i: int| 0 <= i < densities.len() implies #[trigger] densities[i] <= highest(
            densities,
        ) by {
            if i < front.len() {
                assert(front[i] == densities[i]);
            }
        }
        if front.len() > 0 && highest(front) >= densities.last() {
            let i = choose|i: int| 0 <= i < front.len() && #[trigger] front[i] == highest(front);
            assert(densities[i] == highest(densities));
        }
    }
}

/// The sum lies between the number of densities times a lower bound of them
/// and that number times an upper bound.
pub proof fn lemma_total_between(densities: Seq<u8>, low: int, high: int)
    requires
        forall|i: int| 0 <= i < densities.len() ==> low <= #[trigger] densities[i] <= high,
    ensures
        low * densities.len() <= total(densities) <= high * densities.len(),
    decreases densities.len(),
{
    if densities.len() > 0 {
        let front = densities.drop_last();
        lemma_total_between(front, low, high);
        assert(low * densities.len() == low * front.len() + low) by (nonlinear_arith)
            requires
                densities.len() == front.len() + 1,
        ;
        assert(high * densities.len() == high * front.len() + high) by (nonlinear_arith)
            requires
                densities.len() == front.len() + 1,
        ;
    } else {
        assert(low * densities.len() == 0) by (nonlinear_arith)
            requires
                densities.len() == 0,
        ;
        assert(high * densities.len() == 0) by (nonlinear_arith)
            requires
                densities.len() == 0,
        ;
    }
}

/// Where no density lies below `low` and one lies above it, the sum is more
/// than as many times `low`.
pub proof fn lemma_total_above(densities: Seq<u8>, low: int)
    requires
        forall|i: int| 0 <= i < densities.len() ==> low <= #[trigger] densities[i],
        exists|i: int| 0 <= i < densities.len() && low < #[trigger] densities[i],
    ensures
        low * densities.len() < total(densities),
    decreases densities.len(),
{
    let front = densities.drop_last();
    assert(low * densities.len() == low * front.len() + low) by (nonlinear_arith)
        requires
            densities.len() == front.len() + 1,
    ;
    if low < densities.last() {
        lemma_total_between(front, low, 255);
    } else {
        let i = choose|i: int| 0 <= i < densities.len() && low < #[trigger] densities[i];
        assert(front[i] == densities[i]);
        lemma_total_above(front, low);
    }
}

/// Where no density lies above `high` and one lies below it, the sum is less
/// than as many times `high`.
pub proof fn lemma_total_below(densities: Seq<u8>, high: int)
    requires
        forall|i: int| 0 <= i < densities.len() ==> #[trigger] densities[i] <= high,
        exists|i: int| 0 <= i < densities.len() && #[trigger] densities[i] < high,
    ensures
        total(densities) < high * densities.len(),
    decreases densities.len(),
{
    let front = densities.drop_last();
    assert(high * densities.len() == high * front.len() + high) by (nonlinear_arith)
        requires
            densities.len() == front.len() + 1,
    ;
    if densities.last() < high {
        lemma_total_between(front, 0, high);
    } else {
        let i = choose|i: int| 0 <= i < densities.len() && #[trigger] densities[i] < high;
        assert(front[i] == densities[i]);
        lemma_total_below(front, high);
    }
}

/// Of densities that all have one value, each style makes that value.
pub proof fn lemma_reduced_uniform(
    style: VolumeProjectionRenderingStyle,
    densities: Seq<u8>,
    density: u8,
)
    requires
        densities.len() >= 1,
        forall|i: int| 0 <= i < densities.len() ==> #[trigger] densities[i] == density,
    ensures
        reduced(style, densities).den >= 1,
        reduced(style, densities).num == density * reduced(style, densities).den,
{
    lemma_lowest(densities);
    lemma_highest(densities);
    lemma_total_between(densities, density as int, density as int);
}

/// Of densities that take two values and no other, the minimum is the lower
/// value, the maximum is the higher, and the mean lies strictly between them.
pub proof fn lemma_reduced_two_valued(densities: Seq<u8>, low: u8, high: u8)
    requires
        low < high,
        forall|i: int|
            0 <= i < densities.len() ==> #[trigger] densities[i] == low || densities[i] == high,
        exists|i: int| 0 <= i < densities.len() && #[trigger] densities[i] == low,
        exists|i: int| 0 <= i < densities.len() && #[trigger] densities[i] == high,
    ensures
        reduced(VolumeProjectionRenderingStyle::MinimumIntensityProjection, densities) == (Ratio {
            num: low as int,
            den: 1,
        }),
        reduced(VolumeProjectionRenderingStyle::MaximumIntensityProjection, densities) == (Ratio {
            num: high as int,
            den: 1,
        }),
        ({
            let mean = reduced(
                VolumeProjectionRenderingStyle::AverageIntensityProjection,
                densities,
            );
            mean.den >= 1 && low * mean.den < mean.num < high * mean.den
        }),
{
    lemma_lowest(densities);
    lemma_highest(densities);
    lemma_total_above(densities, low as int);
    lemma_total_below(densities, high as int);
}

/// Reduces the densities read along a ray to one intensity, as the style
/// says: to the lowest, to the highest, or to their mean.
pub fn reduce(style: VolumeProjectionRenderingStyle, densities: &[u8]) -> (intensity: Intensity)
    requires
        densities@.len() >= 1,
    ensures
        intensity@ == reduced(style, densities@),
{
    let mut low: u8 = 255;
    let mut high: u8 = 0;
    let mut sum: u128 = 0;
    let mut i: usize = 0;
    while i < densities.len()
        invariant
            i <= densities@.len(),
            low == lowest(densities@.take(i as int)),
            high == highest(densities@.take(i as int)),
            sum == total(densities@.take(i as int)),
            sum <= 255 * i,
        decreases densities@.len() - i,
    {
        let d: u8 = densities[i];
        proof {
            let next = densities@.take(i + 1);
            assert(next.drop_last() == densities@.take(i as int));
        }
        if d < low {
            low = d;
        }
        if d > high {
            high = d;
        }
        sum = sum + d as u128;
        i = i + 1;
    }
    proof {
        assert(densities@.take(i as int) == densities@);
    }
    match style {
        VolumeProjectionRenderingStyle::MinimumIntensityProjection => Intensity {
            numerator: low as u128,
            denominator: 1,
        },
        VolumeProjectionRenderingStyle::MaximumIntensityProjection => Intensity {
            numerator: high as u128,
            denominator: 1,
        },
        VolumeProjectionRenderingStyle::AverageIntensityProjection => Intensity {
            numerator: sum,
            denominator: densities.len() as u128,
        },
    }
}

} // verus!
