//! The fixed-function state under which a material is drawn.

use vstd::prelude::*;

verus! {

/// How the colour of a fragment is combined with the colour already stored.
#[derive(Clone, Copy, PartialEq, Eq, Structural, Debug, Hash)]
pub enum Blend {
    /// The fragment replaces what is stored.
    Disabled,
    /// The fragment is laid over what is stored, weighted by its alpha.
    Transparency,
}

/// Which fragments pass the comparison with the stored depth.
#[derive(Clone, Copy, PartialEq, Eq, Structural, Debug, Hash)]
pub enum DepthTest {
    /// No fragment passes.
    Never,
    /// Fragments nearer than the stored depth pass.
    Less,
    /// Fragments at the stored depth pass.
    Equal,
    /// Fragments nearer than or at the stored depth pass.
    LessOrEqual,
    /// Fragments farther than the stored depth pass.
    Greater,
    /// Fragments not at the stored depth pass.
    NotEqual,
    /// Fragments farther than or at the stored depth pass.
    GreaterOrEqual,
    /// Every fragment passes.
    Always,
}

/// Which faces are left out before rasterisation.
#[derive(Clone, Copy, PartialEq, Eq, Structural, Debug, Hash)]
pub enum Cull {
    /// Every face is drawn.
    Disabled,
    /// Faces turned away from the viewer are left out.
    Back,
    /// Faces turned towards the viewer are left out.
    Front,
    /// No face is drawn.
    FrontAndBack,
}

/// The render state a material asks for.
#[derive(Clone, Copy, PartialEq, Eq, Structural, Debug, Hash)]
pub struct RenderStates {
    /// Blending of the fragment with the stored colour.
    pub blend: Blend,
    /// Comparison of the fragment with the stored depth.
    pub depth_test: DepthTest,
    /// Faces left out.
    pub cull: Cull,
}

impl RenderStates {
    /// The state of an opaque surface: no blending, nearer fragments win,
    /// every face drawn.
    pub open spec fn default_spec() -> RenderStates {
        RenderStates { blend: Blend::Disabled, depth_test: DepthTest::Less, cull: Cull::Disabled }
    }
}

impl Default for RenderStates {
    fn default() -> (states: RenderStates)
        ensures
            states == RenderStates::default_spec(),
    {
        RenderStates { blend: Blend::Disabled, depth_test: DepthTest::Less, cull: Cull::Disabled }
    }
}

/// Where a material stands in the order of drawing.
#[derive(Clone, Copy, PartialEq, Eq, Structural, Debug, Hash)]
pub enum MaterialType {
    /// Drawn first, in any order.
    Opaque,
    /// Drawn after every opaque material.
    Transparent,
}

/// Tells the kinds of material apart, for batching and sorting.
#[derive(Clone, Copy, PartialEq, Eq, Structural, Debug, Hash)]
#[non_exhaustive]
pub enum EffectMaterialId {
    /// The projection of a volume of voxels.
    VolumeProjectionMaterial,
}

} // verus!
