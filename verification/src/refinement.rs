//! How the mean along a ray settles as the steps are refined.
//!
//! Along the span of a ray each coordinate moves one way only, so the voxel
//! read changes at no more than `width + height + depth - 3` places. Cutting
//! each step into smaller ones can change what is read only in the steps
//! that hold such a place.

use vstd::prelude::*;
use crate::projection::projected;
use crate::ratio::Ratio;
use crate::ray::{Extent, Ray};
use crate::reduction::total;
use crate::sampling::{
    density_at, lemma_parameter_den, lemma_voxel_along_in_grid, parameter_along, samples,
    voxel_along,
};
use crate::style::VolumeProjectionRenderingStyle;
use crate::voxel_grid::CpuTexture3D;

verus! {

/// `(a * b) * (c * d) == (a * c) * (b * d)`.
proof fn lemma_mul_swap(a: int, b: int, c: int, d: int)
    by (nonlinear_arith)
    ensures
        (a * b) * (c * d) == (a * c) * (b * d),
        (a * b) * (c * d) == (c * b) * (a * d),
{
}

/// Multiplying by a number that is not negative keeps the order.
proof fn lemma_mul_keeps_order(x: int, y: int, z: int)
    by (nonlinear_arith)
    requires
        x <= y,
        z >= 0,
    ensures
        x * z <= y * z,
        z * x <= z * y,
{
}

/// Multiplying by a number that is not positive turns the order.
proof fn lemma_mul_turns_order(x: int, y: int, z: int)
    by (nonlinear_arith)
    requires
        x <= y,
        z <= 0,
    ensures
        x * z >= y * z,
        z * x >= z * y,
{
}

/// `(x + y) * z == x * z + y * z`.
proof fn lemma_mul_spreads(x: int, y: int, z: int)
    by (nonlinear_arith)
    ensures
        (x + y) * z == x * z + y * z,
        z * (x + y) == z * x + z * y,
{
}

/// Points further along the span have later parameters.
proof fn lemma_parameter_order(ae: int, cb: int, be: int, pa: int, qa: int, pb: int, qb: int)
    requires
        ae < cb,
        be > 0,
        pa * qb <= pb * qa,
    ensures
        ((qa - pa) * ae + pa * cb) * (qb * be) <= ((qb - pb) * ae + pb * cb) * (qa * be),
{
    let y = cb - ae;
    assert((qa - pa) * ae + pa * cb == qa * ae + pa * y) by (nonlinear_arith)
        requires
            y == cb - ae,
    ;
    assert((qb - pb) * ae + pb * cb == qb * ae + pb * y) by (nonlinear_arith)
        requires
            y == cb - ae,
    ;
    lemma_mul_spreads(qa * ae, pa * y, qb * be);
    lemma_mul_spreads(qb * ae, pb * y, qa * be);
    lemma_mul_swap(qa, ae, qb, be);
    lemma_mul_swap(pa, y, qb, be);
    lemma_mul_swap(pb, y, qa, be);
    assert(y * be > 0) by (nonlinear_arith)
        requires
            y > 0,
            be > 0,
    ;
    lemma_mul_keeps_order(pa * qb, pb * qa, y * be);
}

/// The texture coordinate grows with the parameter where the ray moves up
/// the axis, and falls where it moves down.
proof fn lemma_coordinate_order(
    n: int,
    c: int,
    d: int,
    s: int,
    ta: int,
    da: int,
    tb: int,
    db: int,
)
    requires
        n > 0,
        s > 0,
        ta * db <= tb * da,
    ensures
        d >= 0 ==> (n * (c * da + 2 * (ta * d))) * (2 * s * db) <= (n * (c * db + 2 * (tb * d)))
            * (2 * s * da),
        d <= 0 ==> (n * (c * da + 2 * (ta * d))) * (2 * s * db) >= (n * (c * db + 2 * (tb * d)))
            * (2 * s * da),
{
    let k = 2 * (n * s);
    assert(k > 0) by (nonlinear_arith)
        requires
            k == 2 * (n * s),
            n > 0,
            s > 0,
    ;
    // Both sides over the common factor `k`.
    let left = (c * da + 2 * (ta * d)) * db;
    let right = (c * db + 2 * (tb * d)) * da;
    assert((n * (c * da + 2 * (ta * d))) * (2 * s * db) == k * left) by (nonlinear_arith)
        requires
            k == 2 * (n * s),
            left == (c * da + 2 * (ta * d)) * db,
    ;
    assert((n * (c * db + 2 * (tb * d))) * (2 * s * da) == k * right) by (nonlinear_arith)
        requires
            k == 2 * (n * s),
            right == (c * db + 2 * (tb * d)) * da,
    ;
    lemma_mul_spreads(c * da, 2 * (ta * d), db);
    lemma_mul_spreads(c * db, 2 * (tb * d), da);
    assert((c * da) * db == (c * db) * da) by (nonlinear_arith);
    assert((2 * (ta * d)) * db == 2 * ((ta * db) * d)) by (nonlinear_arith);
    assert((2 * (tb * d)) * da == 2 * ((tb * da) * d)) by (nonlinear_arith);
    if d >= 0 {
        lemma_mul_keeps_order(ta * db, tb * da, d);
        assert(left <= right);
        lemma_mul_keeps_order(left, right, k);
    }
    if d <= 0 {
        lemma_mul_turns_order(ta * db, tb * da, d);
        assert(left >= right);
        lemma_mul_keeps_order(right, left, k);
    }
}

/// Of two ratios with positive denominators, the lesser has the lesser whole
/// part.
proof fn lemma_floor_order(na: int, ma: int, nb: int, mb: int)
    by (nonlinear_arith)
    requires
        ma > 0,
        mb > 0,
        na * mb <= nb * ma,
    ensures
        na / ma <= nb / mb,
{
    let fa = na / ma;
    let fb = nb / mb;
    assert(fa * ma <= na < fa * ma + ma);
    assert(fb * mb <= nb < fb * mb + mb);
    if fa > fb {
        assert(fa >= fb + 1);
        assert(fa * ma >= (fb + 1) * ma);
        assert(na * mb >= ((fb + 1) * ma) * mb);
        assert(nb * ma < ((fb + 1) * mb) * ma);
    }
}

/// One axis of the box with the ray's part in it: where the ray starts, how
/// it moves, how thick the box is and how many voxels it holds.
struct Axis {
    o: int,
    d: int,
    s: int,
    n: int,
}

impl Axis {
    /// The voxel along this axis that holds the point `p / q` of the way from
    /// `near` to `exit`.
    spec fn voxel(self, near: Ratio, exit: Ratio, p: int, q: int) -> int {
        voxel_along(self.o, self.d, self.s, self.n, parameter_along(near, exit, p, q))
    }

    /// Whether the voxel differs between the two ends of part `k` of `parts`
    /// equal parts of the span.
    spec fn changes_in(self, near: Ratio, exit: Ratio, parts: int, k: int) -> bool {
        self.voxel(near, exit, k, parts) != self.voxel(near, exit, k + 1, parts)
    }

    /// In how many of the first `upto` parts the voxel changes.
    spec fn changes(self, near: Ratio, exit: Ratio, parts: int, upto: int) -> int
        decreases upto,
    {
        if upto <= 0 {
            0
        } else {
            self.changes(near, exit, parts, upto - 1) + if self.changes_in(
                near,
                exit,
                parts,
                upto - 1,
            ) {
                1int
            } else {
                0int
            }
        }
    }

    /// The axis has thickness and voxels, and the span has length.
    spec fn fit(self, near: Ratio, exit: Ratio) -> bool {
        &&& self.s > 0
        &&& self.n > 0
        &&& near.den > 0
        &&& exit.den > 0
        &&& near.lt(exit)
    }

    /// Further along the span the voxel number is no lower where the ray
    /// moves up the axis, and no higher where it moves down.
    proof fn lemma_voxel_order(self, near: Ratio, exit: Ratio, pa: int, qa: int, pb: int, qb: int)
        requires
            self.fit(near, exit),
            qa > 0,
            qb > 0,
            pa * qb <= pb * qa,
        ensures
            self.d >= 0 ==> self.voxel(near, exit, pa, qa) <= self.voxel(near, exit, pb, qb),
            self.d <= 0 ==> self.voxel(near, exit, pa, qa) >= self.voxel(near, exit, pb, qb),
    {
        let ae = near.num * exit.den;
        let cb = exit.num * near.den;
        let be = near.den * exit.den;
        let ta = parameter_along(near, exit, pa, qa);
        let tb = parameter_along(near, exit, pb, qb);
        lemma_parameter_den(near, exit, pa, qa);
        lemma_parameter_den(near, exit, pb, qb);
        assert(be > 0) by (nonlinear_arith)
            requires
                be == near.den * exit.den,
                near.den > 0,
                exit.den > 0,
        ;
        lemma_parameter_order(ae, cb, be, pa, qa, pb, qb);
        lemma_coordinate_order(
            self.n,
            2 * self.o + self.s,
            self.d,
            self.s,
            ta.num,
            ta.den,
            tb.num,
            tb.den,
        );
        let top_a = self.n * ((2 * self.o + self.s) * ta.den + 2 * (ta.num * self.d));
        let top_b = self.n * ((2 * self.o + self.s) * tb.den + 2 * (tb.num * self.d));
        let bottom_a = 2 * self.s * ta.den;
        let bottom_b = 2 * self.s * tb.den;
        assert(bottom_a > 0) by (nonlinear_arith)
            requires
                bottom_a == 2 * self.s * ta.den,
                self.s > 0,
                ta.den > 0,
        ;
        assert(bottom_b > 0) by (nonlinear_arith)
            requires
                bottom_b == 2 * self.s * tb.den,
                self.s > 0,
                tb.den > 0,
        ;
        lemma_voxel_along_in_grid(self.o, self.d, self.s, self.n, ta);
        lemma_voxel_along_in_grid(self.o, self.d, self.s, self.n, tb);
        if self.d >= 0 {
            lemma_floor_order(top_a, bottom_a, top_b, bottom_b);
            if top_a > 0 {
                assert(top_b > 0) by (nonlinear_arith)
                    requires
                        top_a > 0,
                        bottom_a > 0,
                        bottom_b > 0,
                        top_a * bottom_b <= top_b * bottom_a,
                ;
            }
        }
        if self.d <= 0 {
            lemma_floor_order(top_b, bottom_b, top_a, bottom_a);
            if top_b > 0 {
                assert(top_a > 0) by (nonlinear_arith)
                    requires
                        top_b > 0,
                        bottom_a > 0,
                        bottom_b > 0,
                        top_b * bottom_a <= top_a * bottom_b,
                ;
            }
        }
    }

    /// Where the voxel is the same at both ends of a part, it is that voxel
    /// at every point of the part.
    proof fn lemma_still_within(self, near: Ratio, exit: Ratio, parts: int, k: int, p: int, q: int)
        requires
            self.fit(near, exit),
            parts > 0,
            q > 0,
            k * q <= p * parts,
            p * parts <= (k + 1) * q,
            !self.changes_in(near, exit, parts, k),
        ensures
            self.voxel(near, exit, p, q) == self.voxel(near, exit, k, parts),
    {
        self.lemma_voxel_order(near, exit, k, parts, p, q);
        self.lemma_voxel_order(near, exit, p, q, k + 1, parts);
    }

    /// The voxel changes in no more parts than there are voxels to move on
    /// to.
    proof fn lemma_changes_bound(self, near: Ratio, exit: Ratio, parts: int, upto: int)
        requires
            self.fit(near, exit),
            parts > 0,
            upto >= 0,
        ensures
            0 <= self.changes(near, exit, parts, upto) <= self.n - 1,
            self.d >= 0 ==> self.changes(near, exit, parts, upto) <= self.voxel(
                near,
                exit,
                upto,
                parts,
            ) - self.voxel(near, exit, 0, parts),
            self.d <= 0 ==> self.changes(near, exit, parts, upto) <= self.voxel(
                near,
                exit,
                0,
                parts,
            ) - self.voxel(near, exit, upto, parts),
        decreases upto,
    {
        lemma_parameter_den(near, exit, upto, parts);
        lemma_parameter_den(near, exit, 0, parts);
        lemma_voxel_along_in_grid(
            self.o,
            self.d,
            self.s,
            self.n,
            parameter_along(near, exit, upto, parts),
        );
        lemma_voxel_along_in_grid(
            self.o,
            self.d,
            self.s,
            self.n,
            parameter_along(near, exit, 0, parts),
        );
        if upto > 0 {
            self.lemma_changes_bound(near, exit, parts, upto - 1);
            assert((upto - 1) * parts <= upto * parts) by (nonlinear_arith)
                requires
                    parts > 0,
            ;
            self.lemma_voxel_order(near, exit, upto - 1, parts, upto, parts);
        }
    }
}

/// A ray on its span through the box of a texture.
struct Crossing {
    texture: CpuTexture3D,
    size: Extent,
    ray: Ray,
    near: Ratio,
    exit: Ratio,
}

impl Crossing {
    /// The first axis.
    spec fn x(self) -> Axis {
        Axis {
            o: self.ray.origin.x as int,
            d: self.ray.direction.x as int,
            s: self.size.x as int,
            n: self.texture.width as int,
        }
    }

    /// The second axis.
    spec fn y(self) -> Axis {
        Axis {
            o: self.ray.origin.y as int,
            d: self.ray.direction.y as int,
            s: self.size.y as int,
            n: self.texture.height as int,
        }
    }

    /// The third axis.
    spec fn z(self) -> Axis {
        Axis {
            o: self.ray.origin.z as int,
            d: self.ray.direction.z as int,
            s: self.size.z as int,
            n: self.texture.depth as int,
        }
    }

    /// The texture is well formed and the span is that of the ray.
    spec fn fit(self) -> bool {
        &&& self.texture.well_formed()
        &&& self.ray.span(self.size) == Some((self.near, self.exit))
    }

    /// The density read `p / q` of the way along the span.
    spec fn density(self, p: int, q: int) -> u8 {
        density_at(
            &self.texture,
            self.size,
            self.ray,
            parameter_along(self.near, self.exit, p, q),
        )
    }

    /// The densities read in `steps` steps.
    spec fn densities(self, steps: int) -> Seq<u8> {
        Seq::new(steps as nat, |k: int| self.density(2 * k + 1, 2 * steps))
    }

    /// Whether the voxel read differs between the two ends of part `k` of
    /// `parts` equal parts of the span.
    spec fn rough(self, parts: int, k: int) -> bool {
        ||| self.x().changes_in(self.near, self.exit, parts, k)
        ||| self.y().changes_in(self.near, self.exit, parts, k)
        ||| self.z().changes_in(self.near, self.exit, parts, k)
    }

    /// In how many of the first `upto` parts the voxel read changes.
    spec fn rough_parts(self, parts: int, upto: int) -> int
        decreases upto,
    {
        if upto <= 0 {
            0
        } else {
            self.rough_parts(parts, upto - 1) + if self.rough(parts, upto - 1) {
                1int
            } else {
                0int
            }
        }
    }

    /// The voxels that a ray can move on to: one less than there are along
    /// each axis.
    spec fn crossings(self) -> int {
        (self.texture.width - 1) + (self.texture.height - 1) + (self.texture.depth - 1)
    }

    /// Each axis fits the span.
    proof fn lemma_axes_fit(self)
        requires
            self.fit(),
        ensures
            self.x().fit(self.near, self.exit),
            self.y().fit(self.near, self.exit),
            self.z().fit(self.near, self.exit),
    {
        self.ray.lemma_span_within_slabs(self.size);
    }

    /// The voxel read changes in no more parts than there are voxels to move
    /// on to.
    proof fn lemma_rough_parts_bound(self, parts: int, upto: int)
        requires
            self.fit(),
            parts > 0,
            upto >= 0,
        ensures
            0 <= self.rough_parts(parts, upto) <= self.x().changes(
                self.near,
                self.exit,
                parts,
                upto,
            ) + self.y().changes(self.near, self.exit, parts, upto) + self.z().changes(
                self.near,
                self.exit,
                parts,
                upto,
            ),
            self.rough_parts(parts, upto) <= self.crossings(),
        decreases upto,
    {
        self.lemma_axes_fit();
        self.x().lemma_changes_bound(self.near, self.exit, parts, upto);
        self.y().lemma_changes_bound(self.near, self.exit, parts, upto);
        self.z().lemma_changes_bound(self.near, self.exit, parts, upto);
        if upto > 0 {
            self.lemma_rough_parts_bound(parts, upto - 1);
        }
    }

    /// In a part where the voxel read does not change, every point reads
    /// what the start of the part reads.
    proof fn lemma_still_density(self, parts: int, k: int, p: int, q: int)
        requires
            self.fit(),
            parts > 0,
            q > 0,
            k * q <= p * parts,
            p * parts <= (k + 1) * q,
            !self.rough(parts, k),
        ensures
            self.density(p, q) == self.density(k, parts),
    {
        self.lemma_axes_fit();
        self.x().lemma_still_within(self.near, self.exit, parts, k, p, q);
        self.y().lemma_still_within(self.near, self.exit, parts, k, p, q);
        self.z().lemma_still_within(self.near, self.exit, parts, k, p, q);
    }

    /// Sample `k * factor + r` of `steps * factor` lies in part `k` of
    /// `steps`, as sample `k` of `steps` does.
    proof fn lemma_samples_in_part(steps: int, factor: int, k: int, r: int)
        by (nonlinear_arith)
        requires
            steps >= 1,
            factor >= 1,
            0 <= r < factor,
        ensures
            k * (2 * (steps * factor)) <= (2 * (k * factor + r) + 1) * steps,
            (2 * (k * factor + r) + 1) * steps <= (k + 1) * (2 * (steps * factor)),
            k * (2 * steps) <= (2 * k + 1) * steps,
            (2 * k + 1) * steps <= (k + 1) * (2 * steps),
    {
    }
}

/// The sum of one more density is the sum so far and that density.
proof fn lemma_total_step(densities: Seq<u8>, i: int)
    requires
        0 <= i < densities.len(),
    ensures
        total(densities.take(i + 1)) == total(densities.take(i)) + densities[i],
{
    assert(densities.take(i + 1).drop_last() == densities.take(i));
}

impl Crossing {
    /// What the first `r` of the `factor` fine steps in part `k` add to the
    /// sum: `r` times what the part reads where the voxel does not change in
    /// it, and never more than `r` times the greatest density.
    proof fn lemma_block(self, steps: int, factor: int, k: int, r: int)
        requires
            self.fit(),
            steps >= 1,
            factor >= 1,
            0 <= k < steps,
            0 <= r <= factor,
        ensures
            ({
                let fine = self.densities(steps * factor);
                let added = total(fine.take(k * factor + r)) - total(fine.take(k * factor));
                &&& 0 <= added <= 255 * r
                &&& !self.rough(steps, k) ==> added == r * self.density(k, steps)
            }),
        decreases r,
    {
        if r > 0 {
            self.lemma_block(steps, factor, k, r - 1);
            let fine = self.densities(steps * factor);
            let j = k * factor + (r - 1);
            assert(0 <= j < steps * factor) by (nonlinear_arith)
                requires
                    j == k * factor + (r - 1),
                    0 <= k < steps,
                    1 <= r <= factor,
            ;
            lemma_total_step(fine, j);
            assert(fine[j] == self.density(2 * j + 1, 2 * (steps * factor)));
            if !self.rough(steps, k) {
                Self::lemma_samples_in_part(steps, factor, k, r - 1);
                assert(2 * (steps * factor) > 0) by (nonlinear_arith)
                    requires
                        steps >= 1,
                        factor >= 1,
                ;
                self.lemma_still_density(steps, k, 2 * j + 1, 2 * (steps * factor));
                assert(r * self.density(k, steps) == (r - 1) * self.density(k, steps)
                    + self.density(k, steps)) by (nonlinear_arith);
            }
        }
    }

    /// After `upto` coarse steps, the fine sum and `factor` times the coarse
    /// sum differ by no more than `255 * factor` for each part passed in which
    /// the voxel changes.
    proof fn lemma_prefix(self, steps: int, factor: int, upto: int)
        requires
            self.fit(),
            steps >= 1,
            factor >= 1,
            0 <= upto <= steps,
        ensures
            ({
                let fine = self.densities(steps * factor);
                let coarse = self.densities(steps);
                let off = total(fine.take(upto * factor)) - factor * total(coarse.take(upto));
                let most = 255 * (factor * self.rough_parts(steps, upto));
                -most <= off <= most
            }),
        decreases upto,
    {
        let fine = self.densities(steps * factor);
        let coarse = self.densities(steps);
        if upto == 0 {
            assert(0 * factor == 0) by (nonlinear_arith);
            assert(factor * 0 == 0) by (nonlinear_arith);
            assert(fine.take(0) =~= Seq::<u8>::empty());
            assert(coarse.take(0) =~= Seq::<u8>::empty());
        } else {
            let k = upto - 1;
            self.lemma_prefix(steps, factor, k);
            self.lemma_block(steps, factor, k, factor);
            assert(upto * factor == k * factor + factor) by (nonlinear_arith)
                requires
                    upto == k + 1,
            ;
            lemma_total_step(coarse, k);
            let c = coarse[k];
            assert(c == self.density(2 * k + 1, 2 * steps));
            assert(factor * (total(coarse.take(k)) + c) == factor * total(coarse.take(k)) + factor
                * c) by (nonlinear_arith);
            let rough_before = self.rough_parts(steps, k);
            if self.rough(steps, k) {
                assert(0 <= factor * c <= 255 * factor) by (nonlinear_arith)
                    requires
                        0 <= c <= 255,
                        factor >= 1,
                ;
                assert(255 * (factor * (rough_before + 1)) == 255 * (factor * rough_before) + 255
                    * factor) by (nonlinear_arith);
            } else {
                Self::lemma_samples_in_part(steps, factor, k, 0);
                self.lemma_still_density(steps, k, 2 * k + 1, 2 * steps);
            }
        }
    }
}

/// Cutting every step into `factor` steps moves the mean by no more than
/// `255 * (width + height + depth - 3) / steps`: the sum over the finer steps
/// and `factor` times the sum over the coarser differ by no more than
/// `255 * factor` for each voxel that the ray can move on to. So the more
/// steps are taken, the less any further refinement can change the mean.
pub proof fn lemma_refined_mean(
    texture: &CpuTexture3D,
    size: Extent,
    ray: Ray,
    steps: u32,
    factor: u32,
)
    requires
        texture.well_formed(),
        steps >= 1,
        factor >= 1,
        steps * factor <= u32::MAX,
        ray.span(size) is Some,
    ensures
        samples(texture, size, ray, steps) matches Some(coarse) && samples(
            texture,
            size,
            ray,
            (steps * factor) as u32,
        ) matches Some(fine) && {
            let crossings = (texture.width - 1) + (texture.height - 1) + (texture.depth - 1);
            let most = 255 * (factor * crossings);
            -most <= total(fine) - factor * total(coarse) <= most
        },
        projected(
            texture,
            size,
            ray,
            steps,
            VolumeProjectionRenderingStyle::AverageIntensityProjection,
        ) matches Some(coarse) && projected(
            texture,
            size,
            ray,
            (steps * factor) as u32,
            VolumeProjectionRenderingStyle::AverageIntensityProjection,
        ) matches Some(fine) && {
            let crossings = (texture.width - 1) + (texture.height - 1) + (texture.depth - 1);
            let most = (255 * crossings) * fine.den;
            &&& coarse.den == steps
            &&& fine.den == steps * factor
            &&& -most <= fine.num * coarse.den - coarse.num * fine.den <= most
        },
{
    let (near, exit) = ray.span(size)->0;
    let crossing = Crossing { texture: *texture, size, ray, near, exit };
    let coarse = samples(texture, size, ray, steps)->0;
    let fine = samples(texture, size, ray, (steps * factor) as u32)->0;
    assert(coarse =~= crossing.densities(steps as int));
    assert(fine =~= crossing.densities(steps * factor));
    crossing.lemma_prefix(steps as int, factor as int, steps as int);
    crossing.lemma_rough_parts_bound(steps as int, steps as int);
    assert(coarse.take(steps as int) =~= coarse);
    assert(fine.take(steps * factor) =~= fine);
    let rough = crossing.rough_parts(steps as int, steps as int);
    let crossings = crossing.crossings();
    assert(255 * (factor * rough) <= 255 * (factor * crossings)) by (nonlinear_arith)
        requires
            0 <= rough <= crossings,
            factor >= 1,
    ;
    let off = total(fine) - factor * total(coarse);
    let n = steps as int;
    let m = factor as int;
    assert(total(fine) * n - total(coarse) * (n * m) == n * off) by (nonlinear_arith)
        requires
            off == total(fine) - m * total(coarse),
    ;
    assert(-((255 * crossings) * (n * m)) <= n * off <= (255 * crossings) * (n * m))
        by (nonlinear_arith)
        requires
            n >= 1,
            -(255 * (m * crossings)) <= off <= 255 * (m * crossings),
    ;
}

} // verus!
