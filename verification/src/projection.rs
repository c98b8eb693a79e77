//! The projection of a volume along one ray.
//!
//! A ray is cast from the viewer through the box that the voxel data fills.
//! Where it crosses the box, the data is read at evenly spaced points of the
//! crossing and the densities read are reduced to one intensity. Where it
//! does not, the fragment is discarded.

use vstd::prelude::*;
use crate::ratio::Ratio;
use crate::ray::{Extent, Ray};
use crate::reduction::{
    lemma_reduced_two_valued, lemma_reduced_uniform, reduce, reduced, Intensity,
};
use crate::sampling::{
    lemma_density_in_data, lemma_parameter_den, march, sample_parameter, samples,
};
use crate::style::VolumeProjectionRenderingStyle;
use crate::voxel_grid::CpuTexture3D;

verus! {

/// The intensity of the fragment that `ray` reaches, or none where the
/// fragment is discarded.
pub open spec fn projected(
    texture: &CpuTexture3D,
    size: Extent,
    ray: Ray,
    steps: u32,
    style: VolumeProjectionRenderingStyle,
) -> Option<Ratio> {
    match samples(texture, size, ray, steps) {
        None => None,
        Some(densities) => Some(reduced(style, densities)),
    }
}

/// The colour of a fragment before lighting: the level of the intensity in
/// red, green and blue with full alpha, and all zero for a discarded fragment.
pub open spec fn fragment_color_of(intensity: Option<Ratio>) -> Seq<u8> {
    match intensity {
        None => seq![0u8, 0u8, 0u8, 0u8],
        Some(i) => {
            let level = (i.num / i.den) as u8;
            seq![level, level, level, 255u8]
        },
    }
}

/// Projects the volume along `ray` in `steps` steps. Returns nothing where the
/// ray does not cross the box, and else the intensity that `style` makes of
/// the densities read.
pub fn project(
    texture: &CpuTexture3D,
    size: &Extent,
    ray: &Ray,
    steps: u32,
    style: VolumeProjectionRenderingStyle,
) -> (intensity: Option<Intensity>)
    requires
        texture.well_formed(),
        steps >= 1,
    ensures
        match intensity {
            Some(i) => projected(texture, *size, *ray, steps, style) == Some(i@),
            None => projected(texture, *size, *ray, steps, style) is None,
        },
        intensity is None <==> ray.span(*size) is None,
{
    match march(texture, size, ray, steps) {
        None => None,
        Some(densities) => Some(reduce(style, densities.as_slice())),
    }
}

/// Turns the outcome of a projection into the colour of the fragment before
/// lighting: grey of the intensity's level, opaque; or nothing at all, with
/// alpha zero, for a discarded fragment.
pub fn fragment_color(intensity: Option<Intensity>) -> (color: [u8; 4])
    ensures
        color@ == fragment_color_of(
            match intensity {
                Some(i) => Some(i@),
                None => None,
            },
        ),
{
    match intensity {
        None => [0, 0, 0, 0],
        Some(i) => {
            let level: u8 = i.level();
            [level, level, level, 255]
        },
    }
}

/// A ray of which no point lies in the box gives a discarded fragment,
/// whatever the style: no intensity, and alpha zero.
pub proof fn lemma_miss_is_discarded(
    texture: &CpuTexture3D,
    size: Extent,
    ray: Ray,
    steps: u32,
    style: VolumeProjectionRenderingStyle,
)
    requires
        !ray.meets(size),
    ensures
        projected(texture, size, ray, steps, style) is None,
        fragment_color_of(projected(texture, size, ray, steps, style))[3] == 0,
{
    ray.lemma_miss_has_no_span(size);
}

/// Through a volume of one density everywhere, every ray that crosses the box
/// gives that density, whatever the style.
pub proof fn lemma_uniform_volume(
    texture: &CpuTexture3D,
    size: Extent,
    ray: Ray,
    steps: u32,
    style: VolumeProjectionRenderingStyle,
    density: u8,
)
    requires
        texture.well_formed(),
        forall|i: int| 0 <= i < texture.data@.len() ==> #[trigger] texture.data@[i] == density,
        steps >= 1,
        ray.span(size) is Some,
    ensures
        projected(texture, size, ray, steps, style) matches Some(intensity) && intensity.den >= 1
            && intensity.num == density * intensity.den,
        fragment_color_of(projected(texture, size, ray, steps, style)) == seq![
            density,
            density,
            density,
            255u8,
        ],
{
    let (near, exit) = ray.span(size)->0;
    let densities = samples(texture, size, ray, steps)->0;
    assert forall|k: int| 0 <= k < densities.len() implies #[trigger] densities[k] == density by {
        let t = sample_parameter(near, exit, steps as int, k);
        lemma_parameter_den(near, exit, 2 * k + 1, 2 * steps);
        lemma_density_in_data(texture, size, ray, t);
    }
    lemma_reduced_uniform(style, densities, density);
    let intensity = reduced(style, densities);
    assert(intensity.num / intensity.den == density) by (nonlinear_arith)
        requires
            intensity.den >= 1,
            intensity.num == density * intensity.den,
    ;
}

/// Through a volume of two densities, a ray that reads both gives the lower
/// as minimum, the higher as maximum, and a mean strictly between the two.
pub proof fn lemma_two_valued_volume(
    texture: &CpuTexture3D,
    size: Extent,
    ray: Ray,
    steps: u32,
    low: u8,
    high: u8,
)
    requires
        texture.well_formed(),
        low < high,
        forall|i: int|
            0 <= i < texture.data@.len() ==> #[trigger] texture.data@[i] == low || texture.data@[i]
                == high,
        samples(texture, size, ray, steps) matches Some(densities) && densities.contains(low)
            && densities.contains(high),
    ensures
        projected(
            texture,
            size,
            ray,
            steps,
            VolumeProjectionRenderingStyle::MinimumIntensityProjection,
        ) == Some(Ratio { num: low as int, den: 1 }),
        projected(
            texture,
            size,
            ray,
            steps,
            VolumeProjectionRenderingStyle::MaximumIntensityProjection,
        ) == Some(Ratio { num: high as int, den: 1 }),
        projected(
            texture,
            size,
            ray,
            steps,
            VolumeProjectionRenderingStyle::AverageIntensityProjection,
        ) matches Some(mean) && mean.den >= 1 && low * mean.den < mean.num < high * mean.den,
{
    let (near, exit) = ray.span(size)->0;
    let densities = samples(texture, size, ray, steps)->0;
    assert forall|k: int| 0 <= k < densities.len() implies #[trigger] densities[k] == low
        || densities[k] == high by {
        let t = sample_parameter(near, exit, steps as int, k);
        lemma_parameter_den(near, exit, 2 * k + 1, 2 * steps);
        lemma_density_in_data(texture, size, ray, t);
    }
    lemma_reduced_two_valued(densities, low, high);
}

} // verus!
