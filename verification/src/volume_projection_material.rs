//! The material that renders the projection of a volume of voxels.

use std::sync::Arc;
use vstd::prelude::*;
use vstd::string::*;
use crate::material::{Material, ShaderStages, UniformBinding, UniformValue};
use crate::render_states::{Blend, EffectMaterialId, MaterialType, RenderStates};
use crate::shader::{CAMERA_POSITION, RENDERING_STYLE, SIZE, VOLUME_PROJECTION_SHADER, VOXELS};
use crate::style::VolumeProjectionRenderingStyle;
use crate::vector::Vec3;
use crate::voxel_grid::{CpuVoxelGrid, VoxelGridError};

verus! {

/// A material that renders the projection of the volume of voxel data in
/// `voxels`: a ray is cast through the volume for each pixel, and the lowest,
/// the highest or the mean density met on it becomes the pixel's intensity.
/// The material is meant for a box centred at the origin.
///
/// `T` is the texture as the GPU holds it. The handle is shared: materials
/// made from one upload keep one texture alive between them.
pub struct VolumeProjectionMaterial<T> {
    /// Voxel data.
    pub voxels: Arc<T>,
    /// The size of the box that the voxel data is rendered in. The texture is
    /// scaled to fill the entire box.
    pub size: Vec3,
    /// Rendering style.
    pub rendering_style: VolumeProjectionRenderingStyle,
}

impl<T> Material for VolumeProjectionMaterial<T> {
    open spec fn kind(&self) -> EffectMaterialId {
        EffectMaterialId::VolumeProjectionMaterial
    }

    open spec fn shader_text(&self, stages: &ShaderStages) -> Seq<char> {
        stages.text() + VOLUME_PROJECTION_SHADER@
    }

    open spec fn bindings(&self, camera_position: Vec3, light_count: u32) -> Seq<UniformBinding> {
        seq![UniformBinding::ToneMapping, UniformBinding::ColorMapping]
            + Seq::new(light_count as nat, |i: int| UniformBinding::Light { index: i as u32 })
            + seq![
                UniformBinding::Uniform {
                    name: CAMERA_POSITION,
                    value: UniformValue::Vector(camera_position),
                },
                UniformBinding::Uniform { name: SIZE, value: UniformValue::Vector(self.size) },
                UniformBinding::Texture3D { name: VOXELS },
                UniformBinding::Uniform {
                    name: RENDERING_STYLE,
                    value: UniformValue::Integer(self.rendering_style.selector()),
                },
            ]
    }

    open spec fn states(&self) -> RenderStates {
        RenderStates { blend: Blend::Transparency, ..RenderStates::default_spec() }
    }

    open spec fn class(&self) -> MaterialType {
        MaterialType::Transparent
    }

    /// Every volume projection material goes by the same identifier.
    fn id(&self) -> (id: EffectMaterialId)
        ensures
            id == EffectMaterialId::VolumeProjectionMaterial,
    {
        EffectMaterialId::VolumeProjectionMaterial
    }

    /// The text of the lighting, of the tone mapping and of the colour
    /// mapping, in this order and as they are, followed by the ray-marching
    /// body. The body is the same for every style: it tells the styles apart
    /// by a uniform.
    fn fragment_shader_source(&self, stages: &ShaderStages) -> (source: String)
        ensures
            source@ == stages.lighting@ + stages.tone_mapping@ + stages.color_mapping@
                + VOLUME_PROJECTION_SHADER@,
    {
        let mut source = stages.lighting.clone();
        source.append(stages.tone_mapping.as_str());
        source.append(stages.color_mapping.as_str());
        source.append(VOLUME_PROJECTION_SHADER);
        source
    }

    /// First the tone mapping and the colour mapping, then each light under
    /// its index, then the position of the viewer, the size of the box, the
    /// voxel texture and the selector of the rendering style.
    fn use_uniforms(&self, camera_position: Vec3, light_count: u32) -> (plan: Vec<UniformBinding>)
        ensures
            plan@.len() == light_count + 6,
            plan@[0] == UniformBinding::ToneMapping,
            plan@[1] == UniformBinding::ColorMapping,
            forall|i: int|
                0 <= i < light_count ==> #[trigger] plan@[2 + i] == (UniformBinding::Light {
                    index: i as u32,
                }),
            plan@[light_count + 2] == (UniformBinding::Uniform {
                name: CAMERA_POSITION,
                value: UniformValue::Vector(camera_position),
            }),
            plan@[light_count + 3] == (UniformBinding::Uniform {
                name: SIZE,
                value: UniformValue::Vector(self.size),
            }),
            plan@[light_count + 4] == (UniformBinding::Texture3D { name: VOXELS }),
            plan@[light_count + 5] == (UniformBinding::Uniform {
                name: RENDERING_STYLE,
                value: UniformValue::Integer(self.rendering_style.selector()),
            }),
    {
        let mut plan: Vec<UniformBinding> = Vec::new();
        plan.push(UniformBinding::ToneMapping);
        plan.push(UniformBinding::ColorMapping);
        let mut i: u32 = 0;
        while i < light_count
            invariant
                i <= light_count,
                plan@ == seq![UniformBinding::ToneMapping, UniformBinding::ColorMapping]
                    + Seq::new(i as nat, |k: int| UniformBinding::Light { index: k as u32 }),
            decreases light_count - i,
        {
            plan.push(UniformBinding::Light { index: i });
            i = i + 1;
        }
        plan.push(
            UniformBinding::Uniform {
                name: CAMERA_POSITION,
                value: UniformValue::Vector(camera_position),
            },
        );
        plan.push(UniformBinding::Uniform { name: SIZE, value: UniformValue::Vector(self.size) });
        plan.push(UniformBinding::Texture3D { name: VOXELS });
        plan.push(
            UniformBinding::Uniform {
                name: RENDERING_STYLE,
                value: UniformValue::Integer(self.rendering_style.selector()),
            },
        );
        plan
    }

    /// Blended by alpha, and otherwise as by default.
    fn render_states(&self) -> (states: RenderStates)
        ensures
            states.blend == Blend::Transparency,
            states.depth_test == RenderStates::default_spec().depth_test,
            states.cull == RenderStates::default_spec().cull,
    {
        RenderStates { blend: Blend::Transparency, ..Default::default() }
    }

    /// Drawn with the transparent materials.
    fn material_type(&self) -> (class: MaterialType)
        ensures
            class == MaterialType::Transparent,
    {
        MaterialType::Transparent
    }
}

impl<T> Clone for VolumeProjectionMaterial<T> {
    /// Another material on the same texture, with the same size and style.
    fn clone(&self) -> (copy: Self)
        ensures
            copy == *self,
    {
        VolumeProjectionMaterial {
            voxels: self.voxels.clone(),
            size: self.size,
            rendering_style: self.rendering_style,
        }
    }
}

impl<T> VolumeProjectionMaterial<T> {
    /// Makes the material for a voxel grid whose data the GPU holds as
    /// `voxels`. The size is that of the grid and the style is the maximum
    /// intensity projection. A grid with a defect is refused with that defect.
    pub fn from_cpu_voxel_grid(voxels: Arc<T>, cpu_voxel_grid: &CpuVoxelGrid) -> (made: Result<
        Self,
        VoxelGridError,
    >)
        ensures
            match cpu_voxel_grid.defect() {
                Some(e) => made == Err::<Self, VoxelGridError>(e),
                None => made == Ok::<Self, VoxelGridError>(
                    (VolumeProjectionMaterial {
                        voxels,
                        size: cpu_voxel_grid.size,
                        rendering_style: VolumeProjectionRenderingStyle::MaximumIntensityProjection,
                    }),
                ),
            },
            made is Ok <==> cpu_voxel_grid.well_formed(),
            made matches Ok(material) ==> material.size == cpu_voxel_grid.size,
    {
        match cpu_voxel_grid.validate() {
            Err(e) => Err(e),
            Ok(()) => Ok(
                VolumeProjectionMaterial {
                    voxels,
                    size: cpu_voxel_grid.size,
                    rendering_style: VolumeProjectionRenderingStyle::MaximumIntensityProjection,
                },
            ),
        }
    }
}

/// The shader source is a function of what is handed in: two calls on
/// materials of the same size and style, with stages that read the same, give
/// the same text, character for character.
pub proof fn lemma_shader_source_deterministic<T>(
    first: &VolumeProjectionMaterial<T>,
    first_stages: &ShaderStages,
    second: &VolumeProjectionMaterial<T>,
    second_stages: &ShaderStages,
)
    requires
        first.size == second.size,
        first.rendering_style == second.rendering_style,
        first_stages.lighting@ == second_stages.lighting@,
        first_stages.tone_mapping@ == second_stages.tone_mapping@,
        first_stages.color_mapping@ == second_stages.color_mapping@,
    ensures
        first.shader_text(first_stages) == second.shader_text(second_stages),
        forall|one: String, other: String|
            call_ensures(
                <VolumeProjectionMaterial<T> as Material>::fragment_shader_source,
                (first, first_stages),
                one,
            ) && call_ensures(
                <VolumeProjectionMaterial<T> as Material>::fragment_shader_source,
                (second, second_stages),
                other,
            ) ==> one@ == other@,
{
}

/// The rendering style leaves the shader text as it is: the part of the
/// stages stands in front, unchanged, and the body behind it is the same for
/// every style.
pub proof fn lemma_style_keeps_shader_text<T>(
    material: VolumeProjectionMaterial<T>,
    style: VolumeProjectionRenderingStyle,
    stages: &ShaderStages,
)
    ensures
        ({
            let restyled = VolumeProjectionMaterial { rendering_style: style, ..material };
            let text = material.shader_text(stages);
            let retext = restyled.shader_text(stages);
            let front = stages.text().len() as int;
            &&& text.subrange(0, front) == stages.text()
            &&& retext.subrange(0, front) == stages.text()
            &&& text.subrange(front, text.len() as int) == VOLUME_PROJECTION_SHADER@
            &&& retext == text
        }),
{
}

} // verus!
