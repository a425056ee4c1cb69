use chunk_foliage::{
    bind_group_layouts, extract_chunk_instancings, grass_draw_call, growth_texture_data,
    instance_buffer_layout, instancing_draw_call, BindGroupSlot, ChunkGrass, ChunkInstancing,
    DrawCall, DrawError, Instance, MeshIndexing, PipelineKind, GROWTH_TEXTURE_LAYERS,
    GROWTH_TEXTURE_RESOLUTION, MESH_ATTRIBUTE_COUNT,
};
use noise::{NoiseFn, Perlin};

fn grass(nr_instances: u32) -> ChunkGrass {
    ChunkGrass {
        time: 0,
        healthy_tip_color: [0; 4],
        healthy_middle_color: [0; 4],
        healthy_base_color: [0; 4],
        unhealthy_tip_color: [0; 4],
        unhealthy_middle_color: [0; 4],
        unhealthy_base_color: [0; 4],
        chunk_xy: [0, 0],
        chunk_half_extents: [0, 0],
        nr_instances,
        growth_texture_id: 0,
        height_modifier: 0,
        scale: 0,
    }
}

#[test]
fn grass_draws_indexed_once_per_blade() {
    assert_eq!(
        grass_draw_call(MeshIndexing::Indexed { index_count: 9 }, &grass(250)),
        Ok(DrawCall::Indexed { index_count: 9, instance_count: 250 })
    );
}

#[test]
fn grass_rejects_non_indexed_mesh() {
    assert_eq!(
        grass_draw_call(MeshIndexing::NonIndexed { vertex_count: 5 }, &grass(250)),
        Err(DrawError::NonIndexedGrassMesh)
    );
}

#[test]
fn props_draw_once_per_placement_indexed_or_not() {
    let chunk = ChunkInstancing {
        instances: vec![Instance { pos_xyz: [0, 0, 0, 1] }; 12],
        base_color_texture: 0,
        model_transform: [[0; 4]; 4],
    };
    let batch = extract_chunk_instancings(&vec![(1u64, true, chunk)]);
    assert_eq!(
        instancing_draw_call(MeshIndexing::Indexed { index_count: 36 }, &batch[0].1),
        DrawCall::Indexed { index_count: 36, instance_count: 12 }
    );
    assert_eq!(
        instancing_draw_call(MeshIndexing::NonIndexed { vertex_count: 24 }, &batch[0].1),
        DrawCall::NonIndexed { vertex_count: 24, instance_count: 12 }
    );
}

#[test]
fn bind_groups_in_shader_order() {
    assert_eq!(
        bind_group_layouts(PipelineKind::Grass),
        vec![
            BindGroupSlot::View,
            BindGroupSlot::Mesh,
            BindGroupSlot::ChunkUniform,
            BindGroupSlot::GrowthTextures,
            BindGroupSlot::GridConfig,
        ]
    );
    assert_eq!(
        bind_group_layouts(PipelineKind::Instancing),
        vec![
            BindGroupSlot::View,
            BindGroupSlot::Mesh,
            BindGroupSlot::ChunkUniform,
            BindGroupSlot::BaseColorTexture,
        ]
    );
}

#[test]
fn instance_attribute_follows_mesh_attributes() {
    let layout = instance_buffer_layout();
    assert_eq!(layout.array_stride, 16);
    assert!(layout.step_per_instance);
    assert_eq!(layout.shader_location, 3);
    assert_eq!(MESH_ATTRIBUTE_COUNT, 3);
    assert_eq!(layout.vertex_buffer_slot, 1);
}

#[test]
fn growth_texels_follow_layer_row_column_order() {
    let sample = |seed: u32, x: u32, y: u32| (seed * 100 + y * 10 + x) as u8;
    let data = growth_texture_data(2, 3, &sample);
    assert_eq!(data.len(), 18);
    assert_eq!(&data[0..3], &[100, 101, 102]);
    assert_eq!(&data[3..6], &[110, 111, 112]);
    assert_eq!(data[8], 122);
    assert_eq!(data[9], 200);
    assert_eq!(data[17], 222);
    assert!(growth_texture_data(0, 3, &sample).is_empty());
    assert!(growth_texture_data(4, 0, &sample).is_empty());
}

fn perlin_texel(seed: u32, x: u32, y: u32) -> u8 {
    let pattern_scale = 0.05;
    let noise = Perlin::new(seed).get([x as f64 * pattern_scale, y as f64 * pattern_scale]) as f32;
    ((noise + 1.0) / 2.0 * 255.0) as u8
}

#[test]
fn growth_texture_identical_across_builds() {
    let a = growth_texture_data(GROWTH_TEXTURE_LAYERS, GROWTH_TEXTURE_RESOLUTION, &perlin_texel);
    let b = growth_texture_data(GROWTH_TEXTURE_LAYERS, GROWTH_TEXTURE_RESOLUTION, &perlin_texel);
    assert_eq!(a.len(), 2 * 100 * 100);
    assert_eq!(a, b);
    // the two layers use different seeds
    assert_ne!(&a[0..10000], &a[10000..20000]);
    assert_eq!(a[10000 + 5 * 100 + 7], perlin_texel(2, 7, 5));
}
