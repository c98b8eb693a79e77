//! Sampling the voxel data along the part of a ray inside the box.
//!
//! The span of the ray is cut into equal parts, one per step, and the data is
//! read at the middle of each part. The point read is carried into the unit
//! cube by `u = (2 * p + size) / (2 * size)` on every axis, and the voxel
//! holding it is the one numbered `floor(u * n)`, the last one for `u = 1`.

use vstd::prelude::*;
use crate::ratio::{lemma_product_bound, Ratio, SLAB_DEN_MAX, SLAB_NUM_MAX};
use crate::ray::{ray_box_span, Extent, Ray, Span};
use crate::voxel_grid::CpuTexture3D;

verus! {

/// The parameter of the point that lies `p / q` of the way from `near` to
/// `exit`.
pub open spec fn parameter_along(near: Ratio, exit: Ratio, p: int, q: int) -> Ratio {
    Ratio {
        num: (q - p) * (near.num * exit.den) + p * (exit.num * near.den),
        den: q * (near.den * exit.den),
    }
}

/// The parameter of sample `k` out of `steps`: the middle of part `k` of the
/// span from `near` to `exit`.
pub open spec fn sample_parameter(near: Ratio, exit: Ratio, steps: int, k: int) -> Ratio {
    parameter_along(near, exit, 2 * k + 1, 2 * steps)
}

/// The number, along one axis with `n` voxels, of the voxel that holds the
/// point of the ray at parameter `t`.
pub open spec fn voxel_along(o: int, d: int, s: int, n: int, t: Ratio) -> int {
    let top = n * ((2 * o + s) * t.den + 2 * (t.num * d));
    let bottom = 2 * s * t.den;
    if top <= 0 {
        0
    } else if top / bottom >= n {
        n - 1
    } else {
        top / bottom
    }
}

/// Where the voxel numbered `(x, y, z)` stands in the data.
pub open spec fn voxel_offset(texture: &CpuTexture3D, x: int, y: int, z: int) -> int {
    (z * texture.height + y) * texture.width + x
}

/// The density read at parameter `t` of the ray.
pub open spec fn density_at(texture: &CpuTexture3D, size: Extent, ray: Ray, t: Ratio) -> u8 {
    texture.data@[voxel_offset(
        texture,
        voxel_along(
            ray.origin.x as int,
            ray.direction.x as int,
            size.x as int,
            texture.width as int,
            t,
        ),
        voxel_along(
            ray.origin.y as int,
            ray.direction.y as int,
            size.y as int,
            texture.height as int,
            t,
        ),
        voxel_along(
            ray.origin.z as int,
            ray.direction.z as int,
            size.z as int,
            texture.depth as int,
            t,
        ),
    )]
}

/// The densities read along the ray in `steps` steps, first the one nearest
/// the origin; none where the ray has no span in the box.
pub open spec fn samples(texture: &CpuTexture3D, size: Extent, ray: Ray, steps: u32) -> Option<
    Seq<u8>,
> {
    match ray.span(size) {
        None => None,
        Some((near, exit)) => Some(
            Seq::new(
                steps as nat,
                |k: int| density_at(texture, size, ray, sample_parameter(near, exit, steps as int, k)),
            ),
        ),
    }
}

/// The voxel that holds a point of the ray is one of the grid.
pub proof fn lemma_voxel_along_in_grid(o: int, d: int, s: int, n: int, t: Ratio)
    requires
        s > 0,
        n > 0,
        t.den > 0,
    ensures
        0 <= voxel_along(o, d, s, n, t) < n,
{
    let top = n * ((2 * o + s) * t.den + 2 * (t.num * d));
    let bottom = 2 * s * t.den;
    assert(bottom > 0) by (nonlinear_arith)
        requires
            bottom == 2 * s * t.den,
            s > 0,
            t.den > 0,
    ;
    if top > 0 {
        assert(top / bottom >= 0) by (nonlinear_arith)
            requires
                top > 0,
                bottom > 0,
        ;
    }
}

/// Every density read along a ray is one of the texture's.
pub proof fn lemma_density_in_data(texture: &CpuTexture3D, size: Extent, ray: Ray, t: Ratio)
    requires
        texture.well_formed(),
        ray.admitted(size),
        t.den > 0,
    ensures
        exists|i: int|
            0 <= i < texture.data@.len() && #[trigger] texture.data@[i] == density_at(
                texture,
                size,
                ray,
                t,
            ),
{
    let x = voxel_along(
        ray.origin.x as int,
        ray.direction.x as int,
        size.x as int,
        texture.width as int,
        t,
    );
    let y = voxel_along(
        ray.origin.y as int,
        ray.direction.y as int,
        size.y as int,
        texture.height as int,
        t,
    );
    let z = voxel_along(
        ray.origin.z as int,
        ray.direction.z as int,
        size.z as int,
        texture.depth as int,
        t,
    );
    lemma_voxel_along_in_grid(
        ray.origin.x as int,
        ray.direction.x as int,
        size.x as int,
        texture.width as int,
        t,
    );
    lemma_voxel_along_in_grid(
        ray.origin.y as int,
        ray.direction.y as int,
        size.y as int,
        texture.height as int,
        t,
    );
    lemma_voxel_along_in_grid(
        ray.origin.z as int,
        ray.direction.z as int,
        size.z as int,
        texture.depth as int,
        t,
    );
    lemma_offset_in_data(
        x,
        y,
        z,
        texture.width as int,
        texture.height as int,
        texture.depth as int,
    );
    let i = voxel_offset(texture, x, y, z);
    assert(texture.data@[i] == density_at(texture, size, ray, t));
}

/// A point along a span with positive denominators has a parameter with a
/// positive denominator.
pub proof fn lemma_parameter_den(near: Ratio, exit: Ratio, p: int, q: int)
    by (nonlinear_arith)
    requires
        near.den > 0,
        exit.den > 0,
        q > 0,
    ensures
        parameter_along(near, exit, p, q).den > 0,
{
}

/// More than twice any number of steps.
const TWICE_STEPS_MAX: i128 = 8589934592;

/// The greatest size of a numerator of a span times a denominator of it.
const CROSS_MAX: i128 = 131071 * 65536;

/// The greatest size of the numerator of a sample parameter.
const PARAMETER_NUM_MAX: i128 = 2 * (8589934592 * (131071 * 65536));

/// The greatest denominator of a sample parameter.
const PARAMETER_DEN_MAX: i128 = 8589934592 * (65536 * 65536);

/// A sample parameter in machine integers.
struct Parameter {
    num: i128,
    den: i128,
}

impl Parameter {
    spec fn ratio(&self) -> Ratio {
        Ratio { num: self.num as int, den: self.den as int }
    }

    spec fn bounded(&self) -> bool {
        &&& -PARAMETER_NUM_MAX <= self.num <= PARAMETER_NUM_MAX
        &&& 1 <= self.den <= PARAMETER_DEN_MAX
    }
}

/// Computes the parameter of sample `k` out of `steps`.
fn parameter_of(span: &Span, steps: u32, k: u32) -> (t: Parameter)
    requires
        span.near@.small(),
        span.exit@.small(),
        k < steps,
    ensures
        t.ratio() == sample_parameter(span.near@, span.exit@, steps as int, k as int),
        t.bounded(),
{
    let a: i128 = span.near.num as i128;
    let b: i128 = span.near.den as i128;
    let c: i128 = span.exit.num as i128;
    let e: i128 = span.exit.den as i128;
    proof {
        lemma_product_bound(a as int, e as int, SLAB_NUM_MAX as int, SLAB_DEN_MAX as int);
        lemma_product_bound(c as int, b as int, SLAB_NUM_MAX as int, SLAB_DEN_MAX as int);
        lemma_product_bound(b as int, e as int, SLAB_DEN_MAX as int, SLAB_DEN_MAX as int);
        assert(1 <= b * e) by (nonlinear_arith)
            requires
                1 <= b,
                1 <= e,
        ;
    }
    let ae: i128 = a * e;
    let cb: i128 = c * b;
    let be: i128 = b * e;
    let odd: i128 = 2 * (k as i128) + 1;
    let rest: i128 = 2 * (steps as i128) - odd;
    let twice: i128 = 2 * (steps as i128);
    proof {
        lemma_product_bound(rest as int, ae as int, TWICE_STEPS_MAX as int, CROSS_MAX as int);
        lemma_product_bound(odd as int, cb as int, TWICE_STEPS_MAX as int, CROSS_MAX as int);
        lemma_product_bound(
            twice as int,
            be as int,
            TWICE_STEPS_MAX as int,
            SLAB_DEN_MAX * SLAB_DEN_MAX,
        );
        assert(1 <= twice * be) by (nonlinear_arith)
            requires
                1 <= twice,
                1 <= be,
        ;
    }
    Parameter { num: rest * ae + odd * cb, den: twice * be }
}

/// Computes the number of the voxel along one axis that holds the point at
/// parameter `t`.
fn voxel_index(o: i16, d: i16, s: u16, n: u32, t: &Parameter) -> (v: u32)
    requires
        s > 0,
        n > 0,
        t.bounded(),
    ensures
        v == voxel_along(o as int, d as int, s as int, n as int, t.ratio()),
        v < n,
{
    let base: i128 = 2 * (o as i128) + (s as i128);
    proof {
        lemma_product_bound(
            base as int,
            t.den as int,
            SLAB_NUM_MAX as int,
            PARAMETER_DEN_MAX as int,
        );
        lemma_product_bound(t.num as int, d as int, PARAMETER_NUM_MAX as int, 32768);
    }
    let lead: i128 = base * t.den;
    let drift: i128 = t.num * (d as i128);
    let inner: i128 = lead + 2 * drift;
    proof {
        lemma_product_bound(
            n as int,
            inner as int,
            u32::MAX as int,
            SLAB_NUM_MAX * PARAMETER_DEN_MAX + 2 * (PARAMETER_NUM_MAX * 32768),
        );
        lemma_product_bound(2 * s as int, t.den as int, 2 * u16::MAX, PARAMETER_DEN_MAX as int);
        assert(1 <= (2 * s) * t.den) by (nonlinear_arith)
            requires
                1 <= 2 * s,
                1 <= t.den,
        ;
    }
    let top: i128 = (n as i128) * inner;
    let bottom: i128 = (2 * (s as i128)) * t.den;
    if top <= 0 {
        0
    } else {
        let quotient: u128 = (top as u128) / (bottom as u128);
        if quotient >= n as u128 {
            n - 1
        } else {
            quotient as u32
        }
    }
}

/// The voxel numbered `(x, y, z)` has its place in the data.
proof fn lemma_offset_in_data(x: int, y: int, z: int, width: int, height: int, depth: int)
    by (nonlinear_arith)
    requires
        0 <= x < width,
        0 <= y < height,
        0 <= z < depth,
    ensures
        0 <= z * height + y < height * depth,
        0 <= (z * height + y) * width + x < width * height * depth,
{
}

/// Reads the density at parameter `t` of the ray.
fn density(texture: &CpuTexture3D, size: &Extent, ray: &Ray, t: &Parameter) -> (d: u8)
    requires
        texture.well_formed(),
        size.x > 0,
        size.y > 0,
        size.z > 0,
        t.bounded(),
    ensures
        d == density_at(texture, *size, *ray, t.ratio()),
{
    let x: u32 = voxel_index(ray.origin.x, ray.direction.x, size.x, texture.width, t);
    let y: u32 = voxel_index(ray.origin.y, ray.direction.y, size.y, texture.height, t);
    let z: u32 = voxel_index(ray.origin.z, ray.direction.z, size.z, texture.depth, t);
    proof {
        lemma_offset_in_data(
            x as int,
            y as int,
            z as int,
            texture.width as int,
            texture.height as int,
            texture.depth as int,
        );
        lemma_product_bound(z as int, texture.height as int, u32::MAX as int, u32::MAX as int);
    }
    let row: u128 = (z as u128) * (texture.height as u128) + (y as u128);
    proof {
        lemma_product_bound(row as int, texture.width as int, u64::MAX as int, u32::MAX as int);
    }
    let offset: u128 = row * (texture.width as u128) + (x as u128);
    assert(offset < texture.data.len());
    texture.data[offset as usize]
}

/// Reads the voxel data along the ray in `steps` steps, first the sample
/// nearest the origin. Returns nothing where the ray has no span in the box.
pub fn march(texture: &CpuTexture3D, size: &Extent, ray: &Ray, steps: u32) -> (densities: Option<
    Vec<u8>,
>)
    requires
        texture.well_formed(),
    ensures
        match densities {
            Some(d) => samples(texture, *size, *ray, steps) == Some(d@),
            None => samples(texture, *size, *ray, steps) is None,
        },
{
    let span: Span = match ray_box_span(ray, size) {
        None => {
            return None;
        },
        Some(span) => span,
    };
    let mut densities: Vec<u8> = Vec::new();
    let mut k: u32 = 0;
    while k < steps
        invariant
            k <= steps,
            texture.well_formed(),
            ray.span(*size) == Some((span.near@, span.exit@)),
            span.near@.small(),
            span.exit@.small(),
            densities@ == Seq::new(
                k as nat,
                |j: int|
                    density_at(
                        texture,
                        *size,
                        *ray,
                        sample_parameter(span.near@, span.exit@, steps as int, j),
                    ),
            ),
        decreases steps - k,
    {
        let t: Parameter = parameter_of(&span, steps, k);
        let d: u8 = density(texture, size, ray, &t);
        densities.push(d);
        k = k + 1;
    }
    Some(densities)
}

} // verus!
