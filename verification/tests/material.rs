use std::sync::Arc;

use volume_projection::material::{Material, ShaderStages, UniformBinding, UniformValue};
use volume_projection::render_states::{
    Blend, Cull, DepthTest, EffectMaterialId, MaterialType, RenderStates,
};
use volume_projection::shader::{
    CAMERA_POSITION, RENDERING_STYLE, SIZE, VOLUME_PROJECTION_SHADER, VOXELS,
};
use volume_projection::style::VolumeProjectionRenderingStyle;
use volume_projection::vector::Vec3;
use volume_projection::volume_projection_material::VolumeProjectionMaterial;
use volume_projection::voxel_grid::{CpuTexture3D, CpuVoxelGrid, VoxelGridError};

fn vec3(x: f32, y: f32, z: f32) -> Vec3 {
    Vec3::from_bits(x.to_bits(), y.to_bits(), z.to_bits())
}

fn material(style: VolumeProjectionRenderingStyle) -> VolumeProjectionMaterial<u32> {
    VolumeProjectionMaterial { voxels: Arc::new(7), size: vec3(1.0, 2.0, 3.0), rendering_style: style }
}

fn stages() -> ShaderStages {
    ShaderStages {
        lighting: String::from("vec3 calculate_lighting();\n"),
        tone_mapping: String::from("vec3 tone_mapping(vec3 color);\n"),
        color_mapping: String::from("vec3 color_mapping(vec3 color);\n"),
    }
}

fn grid(width: u32, height: u32, depth: u32, samples: usize) -> CpuVoxelGrid {
    CpuVoxelGrid {
        voxels: CpuTexture3D { data: vec![9; samples], width, height, depth },
        size: vec3(1.5, 0.25, -4.0),
    }
}

const STYLES: [VolumeProjectionRenderingStyle; 3] = [
    VolumeProjectionRenderingStyle::MinimumIntensityProjection,
    VolumeProjectionRenderingStyle::MaximumIntensityProjection,
    VolumeProjectionRenderingStyle::AverageIntensityProjection,
];

#[test]
fn shader_source_is_stages_then_body() {
    let m = material(VolumeProjectionRenderingStyle::MaximumIntensityProjection);
    let source = m.fragment_shader_source(&stages());
    let expected = format!(
        "vec3 calculate_lighting();\nvec3 tone_mapping(vec3 color);\nvec3 color_mapping(vec3 color);\n{}",
        VOLUME_PROJECTION_SHADER
    );
    assert_eq!(source, expected);
}

#[test]
fn shader_source_of_empty_stages_is_the_body() {
    let m = material(VolumeProjectionRenderingStyle::MinimumIntensityProjection);
    let none = ShaderStages {
        lighting: String::new(),
        tone_mapping: String::new(),
        color_mapping: String::new(),
    };
    assert_eq!(m.fragment_shader_source(&none), VOLUME_PROJECTION_SHADER);
}

#[test]
fn shader_source_keeps_the_order_of_the_stages() {
    let m = material(VolumeProjectionRenderingStyle::MaximumIntensityProjection);
    let swapped = ShaderStages {
        lighting: String::from("B"),
        tone_mapping: String::from("A"),
        color_mapping: String::from("A"),
    };
    let source = m.fragment_shader_source(&swapped);
    assert!(source.starts_with("BAA"));
    assert_eq!(source.len(), 3 + VOLUME_PROJECTION_SHADER.len());
}

#[test]
fn shader_source_is_the_same_on_every_call() {
    for style in STYLES {
        let m = material(style);
        let first = m.fragment_shader_source(&stages());
        let second = m.fragment_shader_source(&stages());
        assert_eq!(first.as_bytes(), second.as_bytes());
        let twin = material(style);
        assert_eq!(twin.fragment_shader_source(&stages()).as_bytes(), first.as_bytes());
    }
}

#[test]
fn style_does_not_alter_the_stages_in_the_source() {
    let st = stages();
    let front = format!("{}{}{}", st.lighting, st.tone_mapping, st.color_mapping);
    let first = material(STYLES[0]).fragment_shader_source(&st);
    for style in STYLES {
        let source = material(style).fragment_shader_source(&st);
        assert_eq!(&source[..front.len()], front);
        assert_eq!(&source[front.len()..], VOLUME_PROJECTION_SHADER);
        assert_eq!(source, first);
    }
}

#[test]
fn body_declares_what_the_material_binds() {
    assert_eq!(CAMERA_POSITION, "cameraPosition");
    assert_eq!(SIZE, "size");
    assert_eq!(VOXELS, "tex");
    assert_eq!(RENDERING_STYLE, "renderingStyle");
    assert!(VOLUME_PROJECTION_SHADER.contains("uniform vec3 cameraPosition;"));
    assert!(VOLUME_PROJECTION_SHADER.contains("uniform vec3 size;"));
    assert!(VOLUME_PROJECTION_SHADER.contains("uniform sampler3D tex;"));
    assert!(VOLUME_PROJECTION_SHADER.contains("uniform int renderingStyle;"));
}

#[test]
fn body_tells_the_styles_apart_by_their_selectors() {
    assert_eq!(VolumeProjectionRenderingStyle::MinimumIntensityProjection.selector(), 0);
    assert_eq!(VolumeProjectionRenderingStyle::MaximumIntensityProjection.selector(), 1);
    assert_eq!(VolumeProjectionRenderingStyle::AverageIntensityProjection.selector(), 2);
    assert!(VOLUME_PROJECTION_SHADER.contains("const int MINIMUM_INTENSITY = 0;"));
    assert!(VOLUME_PROJECTION_SHADER.contains("const int MAXIMUM_INTENSITY = 1;"));
}

#[test]
fn bindings_follow_the_fixed_order() {
    let m = material(VolumeProjectionRenderingStyle::AverageIntensityProjection);
    let camera = vec3(0.0, 0.0, 5.0);
    let plan = m.use_uniforms(camera, 2);
    assert_eq!(
        plan,
        vec![
            UniformBinding::ToneMapping,
            UniformBinding::ColorMapping,
            UniformBinding::Light { index: 0 },
            UniformBinding::Light { index: 1 },
            UniformBinding::Uniform { name: "cameraPosition", value: UniformValue::Vector(camera) },
            UniformBinding::Uniform {
                name: "size",
                value: UniformValue::Vector(vec3(1.0, 2.0, 3.0)),
            },
            UniformBinding::Texture3D { name: "tex" },
            UniformBinding::Uniform { name: "renderingStyle", value: UniformValue::Integer(2) },
        ]
    );
}

#[test]
fn bindings_without_lights() {
    let m = material(VolumeProjectionRenderingStyle::MinimumIntensityProjection);
    let camera = vec3(1.0, 1.0, 1.0);
    let plan = m.use_uniforms(camera, 0);
    assert_eq!(plan.len(), 6);
    assert_eq!(plan[0], UniformBinding::ToneMapping);
    assert_eq!(plan[1], UniformBinding::ColorMapping);
    assert_eq!(
        plan[2],
        UniformBinding::Uniform { name: "cameraPosition", value: UniformValue::Vector(camera) }
    );
    assert_eq!(
        plan[5],
        UniformBinding::Uniform { name: "renderingStyle", value: UniformValue::Integer(0) }
    );
}

#[test]
fn bindings_index_every_light_once() {
    let m = material(VolumeProjectionRenderingStyle::MaximumIntensityProjection);
    let plan = m.use_uniforms(vec3(0.0, 0.0, 0.0), 100);
    assert_eq!(plan.len(), 106);
    for i in 0..100u32 {
        assert_eq!(plan[2 + i as usize], UniformBinding::Light { index: i });
    }
    assert_eq!(
        plan[105],
        UniformBinding::Uniform { name: "renderingStyle", value: UniformValue::Integer(1) }
    );
}

#[test]
fn bindings_are_the_same_on_every_call() {
    let m = material(VolumeProjectionRenderingStyle::AverageIntensityProjection);
    let camera = vec3(3.0, -2.0, 0.5);
    assert_eq!(m.use_uniforms(camera, 3), m.use_uniforms(camera, 3));
}

#[test]
fn drawn_blended_among_the_transparent() {
    for style in STYLES {
        let m = material(style);
        let states = m.render_states();
        assert_eq!(states.blend, Blend::Transparency);
        assert_eq!(states.depth_test, DepthTest::Less);
        assert_eq!(states.cull, Cull::Disabled);
        assert_eq!(states, RenderStates { blend: Blend::Transparency, ..RenderStates::default() });
        assert_eq!(m.material_type(), MaterialType::Transparent);
        assert_eq!(m.id(), EffectMaterialId::VolumeProjectionMaterial);
    }
}

#[test]
fn default_render_states_are_those_of_an_opaque_surface() {
    let states = RenderStates::default();
    assert_eq!(states.blend, Blend::Disabled);
    assert_eq!(states.depth_test, DepthTest::Less);
    assert_eq!(states.cull, Cull::Disabled);
}

#[test]
fn material_from_grid_reads_back_the_size_of_the_grid() {
    let g = grid(2, 3, 4, 24);
    let made = VolumeProjectionMaterial::from_cpu_voxel_grid(Arc::new(1u32), &g).unwrap();
    assert_eq!(made.size, g.size);
    assert_eq!(made.size.to_bits(), [1.5f32.to_bits(), 0.25f32.to_bits(), (-4.0f32).to_bits()]);
    assert_eq!(f32::from_bits(made.size.x), 1.5);
    assert_eq!(f32::from_bits(made.size.y), 0.25);
    assert_eq!(f32::from_bits(made.size.z), -4.0);
}

#[test]
fn material_from_grid_keeps_every_bit_of_the_size() {
    let mut g = grid(1, 1, 1, 1);
    g.size = Vec3::from_bits(0x7fc0_0001, 0x8000_0000, 0x0000_0001);
    let made = VolumeProjectionMaterial::from_cpu_voxel_grid(Arc::new(1u32), &g).unwrap();
    assert_eq!(made.size.to_bits(), [0x7fc0_0001, 0x8000_0000, 0x0000_0001]);
}

#[test]
fn material_from_grid_projects_the_maximum_and_holds_the_texture() {
    let texture = Arc::new(42u32);
    let made = VolumeProjectionMaterial::from_cpu_voxel_grid(texture.clone(), &grid(2, 2, 2, 8))
        .unwrap();
    assert_eq!(made.rendering_style, VolumeProjectionRenderingStyle::MaximumIntensityProjection);
    assert!(Arc::ptr_eq(&made.voxels, &texture));
}

#[test]
fn grid_with_a_zero_dimension_is_refused() {
    for g in [grid(0, 2, 2, 4), grid(2, 0, 2, 4), grid(2, 2, 0, 4), grid(0, 0, 0, 0)] {
        assert_eq!(g.validate(), Err(VoxelGridError::ZeroDimension));
        let made = VolumeProjectionMaterial::from_cpu_voxel_grid(Arc::new(0u32), &g);
        assert_eq!(made.err(), Some(VoxelGridError::ZeroDimension));
    }
}

#[test]
fn grid_without_samples_is_refused() {
    let g = grid(2, 2, 2, 0);
    assert_eq!(g.validate(), Err(VoxelGridError::EmptySamples));
    let made = VolumeProjectionMaterial::from_cpu_voxel_grid(Arc::new(0u32), &g);
    assert_eq!(made.err(), Some(VoxelGridError::EmptySamples));
}

#[test]
fn grid_with_the_wrong_number_of_samples_is_refused() {
    for samples in [7, 9] {
        let g = grid(2, 2, 2, samples);
        assert_eq!(g.validate(), Err(VoxelGridError::SampleCountMismatch));
        let made = VolumeProjectionMaterial::from_cpu_voxel_grid(Arc::new(0u32), &g);
        assert_eq!(made.err(), Some(VoxelGridError::SampleCountMismatch));
    }
}

#[test]
fn grid_with_one_sample_per_voxel_is_accepted() {
    assert_eq!(grid(1, 1, 1, 1).validate(), Ok(()));
    assert_eq!(grid(3, 5, 7, 105).validate(), Ok(()));
    assert_eq!(grid(3, 5, 7, 105).voxels.validate(), Ok(()));
}

#[test]
fn grid_too_large_for_its_samples_is_refused_without_overflow() {
    let g = grid(u32::MAX, u32::MAX, u32::MAX, 1);
    assert_eq!(g.validate(), Err(VoxelGridError::SampleCountMismatch));
}

#[test]
fn clones_share_one_texture() {
    let texture = Arc::new(String::from("voxels"));
    let first = VolumeProjectionMaterial {
        voxels: texture.clone(),
        size: vec3(1.0, 1.0, 1.0),
        rendering_style: VolumeProjectionRenderingStyle::AverageIntensityProjection,
    };
    let second = first.clone();
    assert!(Arc::ptr_eq(&first.voxels, &second.voxels));
    assert_eq!(second.size, first.size);
    assert_eq!(second.rendering_style, first.rendering_style);
    assert_eq!(Arc::strong_count(&texture), 3);
    drop(first);
    assert_eq!(Arc::strong_count(&texture), 2);
    drop(second);
    assert_eq!(Arc::strong_count(&texture), 1);
}

#[test]
fn vector_keeps_its_bits() {
    let v = Vec3::from_bits(1, 2, 3);
    assert_eq!((v.x, v.y, v.z), (1, 2, 3));
    assert_eq!(v.to_bits(), [1, 2, 3]);
}

#[test]
fn cloned_grid_and_stages_are_equal_to_what_they_were_cloned_from() {
    let g = grid(2, 3, 4, 24);
    assert_eq!(g.clone(), g);
    assert_eq!(g.voxels.clone(), g.voxels);
    let st = stages();
    assert_eq!(st.clone(), st);
}

#[test]
fn materials_are_dispatched_through_the_interface() {
    let first = material(VolumeProjectionRenderingStyle::MinimumIntensityProjection);
    let second = material(VolumeProjectionRenderingStyle::AverageIntensityProjection);
    let materials: Vec<&dyn Material> = vec![&first, &second];
    for m in materials {
        assert_eq!(m.id(), EffectMaterialId::VolumeProjectionMaterial);
        assert_eq!(m.material_type(), MaterialType::Transparent);
        assert_eq!(m.render_states().blend, Blend::Transparency);
        assert!(m.fragment_shader_source(&stages()).ends_with(VOLUME_PROJECTION_SHADER));
        assert_eq!(m.use_uniforms(vec3(0.0, 0.0, 0.0), 1).len(), 7);
    }
}
