//! What every material offers to a renderer.

use vstd::prelude::*;
use crate::render_states::{EffectMaterialId, MaterialType, RenderStates};
use crate::vector::Vec3;

verus! {

/// The shader text that the shading stages around a material contribute.
#[derive(PartialEq, Eq, Debug)]
pub struct ShaderStages {
    /// Declarations and functions of the lighting system for the active lights.
    pub lighting: String,
    /// Declarations and functions of the tone-mapping stage.
    pub tone_mapping: String,
    /// Declarations and functions of the colour-mapping stage.
    pub color_mapping: String,
}

impl Clone for ShaderStages {
    /// Stages that read the same.
    fn clone(&self) -> (copy: Self)
        ensures
            copy.lighting@ == self.lighting@,
            copy.tone_mapping@ == self.tone_mapping@,
            copy.color_mapping@ == self.color_mapping@,
    {
        ShaderStages {
            lighting: self.lighting.clone(),
            tone_mapping: self.tone_mapping.clone(),
            color_mapping: self.color_mapping.clone(),
        }
    }
}

impl ShaderStages {
    /// The three contributions in the order in which a shader holds them:
    /// lighting, tone mapping, colour mapping.
    pub open spec fn text(&self) -> Seq<char> {
        self.lighting@ + self.tone_mapping@ + self.color_mapping@
    }
}

/// The value of a uniform.
#[derive(Clone, Copy, PartialEq, Eq, Structural, Debug, Hash)]
pub enum UniformValue {
    /// Three single-precision components.
    Vector(Vec3),
    /// A signed integer.
    Integer(i32),
}

/// One step of handing a program what its shader refers to.
#[derive(Clone, Copy, PartialEq, Eq, Debug, Hash)]
pub enum UniformBinding {
    /// The tone-mapping stage uploads its uniforms.
    ToneMapping,
    /// The colour-mapping stage uploads its uniforms.
    ColorMapping,
    /// The light at `index` of the active lights uploads its uniforms under
    /// that index.
    Light { index: u32 },
    /// The uniform `name` is set to `value`.
    Uniform { name: &'static str, value: UniformValue },
    /// The material's volume texture is bound to the sampler `name`.
    Texture3D { name: &'static str },
}

/// A rendering technique: shader text, the bindings that text needs, and the
/// state and order in which to draw.
pub trait Material {
    /// The identifier of the kind of this material.
    spec fn kind(&self) -> EffectMaterialId;

    /// The fragment shader of this material around the given stages.
    spec fn shader_text(&self, stages: &ShaderStages) -> Seq<char>;

    /// The bindings of this material for a viewer at `camera_position` and
    /// `light_count` active lights, in the order in which they are made.
    spec fn bindings(&self, camera_position: Vec3, light_count: u32) -> Seq<UniformBinding>;

    /// The render state this material is drawn under.
    spec fn states(&self) -> RenderStates;

    /// The class this material is drawn in.
    spec fn class(&self) -> MaterialType;

    /// Identifies the kind of material.
    fn id(&self) -> (id: EffectMaterialId)
        ensures
            id == self.kind(),
    ;

    /// The complete fragment shader source. It depends on nothing but the
    /// material and the stages, so equal inputs give equal text.
    fn fragment_shader_source(&self, stages: &ShaderStages) -> (source: String)
        ensures
            source@ == self.shader_text(stages),
    ;

    /// The bindings to make, in order, before drawing with a program compiled
    /// from `fragment_shader_source` for as many lights.
    fn use_uniforms(&self, camera_position: Vec3, light_count: u32) -> (plan: Vec<UniformBinding>)
        ensures
            plan@ == self.bindings(camera_position, light_count),
    ;

    /// The render state to draw under.
    fn render_states(&self) -> (states: RenderStates)
        ensures
            states == self.states(),
    ;

    /// Whether the material is drawn with the opaque or the transparent ones.
    fn material_type(&self) -> (class: MaterialType)
        ensures
            class == self.class(),
    ;
}

} // verus!
