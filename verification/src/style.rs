//! The reduction policies of a volume projection.

use vstd::prelude::*;

verus! {

/// How the densities met along a ray are reduced to one intensity.
#[derive(Clone, Copy, PartialEq, Eq, Structural, Debug, Hash)]
pub enum VolumeProjectionRenderingStyle {
    /// The pixel takes the lowest density met on the ray path.
    MinimumIntensityProjection,
    /// The pixel takes the highest density met on the ray path.
    MaximumIntensityProjection,
    /// The pixel takes the mean of the densities met on the ray path.
    AverageIntensityProjection,
}

impl VolumeProjectionRenderingStyle {
    /// The number by which the shader body tells the styles apart.
    pub open spec fn selector_spec(self) -> i32 {
        match self {
            VolumeProjectionRenderingStyle::MinimumIntensityProjection => 0i32,
            VolumeProjectionRenderingStyle::MaximumIntensityProjection => 1i32,
            VolumeProjectionRenderingStyle::AverageIntensityProjection => 2i32,
        }
    }

    /// The value to upload as the style selector of the shader body.
    #[verifier::when_used_as_spec(selector_spec)]
    pub fn selector(self) -> (selector: i32)
        ensures
            selector == self.selector_spec(),
    {
        match self {
            VolumeProjectionRenderingStyle::MinimumIntensityProjection => 0,
            VolumeProjectionRenderingStyle::MaximumIntensityProjection => 1,
            VolumeProjectionRenderingStyle::AverageIntensityProjection => 2,
        }
    }
}

} // verus!
