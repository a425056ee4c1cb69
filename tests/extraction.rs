use chunk_foliage::{
    extract_chunk_grass, extract_chunk_instancings, queue_grass_chunks, queue_instancing_chunks,
    ChunkGrass, ChunkInstancing, Instance,
};

fn grass(nr_instances: u32) -> ChunkGrass {
    ChunkGrass {
        time: 0,
        healthy_tip_color: [1; 4],
        healthy_middle_color: [2; 4],
        healthy_base_color: [3; 4],
        unhealthy_tip_color: [4; 4],
        unhealthy_middle_color: [5; 4],
        unhealthy_base_color: [6; 4],
        chunk_xy: [0, 0],
        chunk_half_extents: [7, 7],
        nr_instances,
        growth_texture_id: 0,
        height_modifier: 8,
        scale: 9,
    }
}

fn props(texture: u64, n: u64) -> ChunkInstancing {
    ChunkInstancing {
        instances: (0..n).map(|i| Instance { pos_xyz: [i, i, 0, 1 << 24] }).collect(),
        base_color_texture: texture,
        model_transform: [[texture as u32; 4]; 4],
    }
}

#[test]
fn grass_extraction_keeps_only_visible_chunk() {
    let items = vec![(10u64, true, grass(5)), (11u64, false, grass(6))];
    let batch = extract_chunk_grass(&items);
    assert_eq!(batch.len(), 1);
    assert_eq!(batch[0].0, 10);
    assert_eq!(batch[0].1, grass(5).to_raw());
}

#[test]
fn instancing_extraction_keeps_only_visible_chunk() {
    let items = vec![(1u64, false, props(3, 2)), (2u64, true, props(4, 3))];
    let batch = extract_chunk_instancings(&items);
    assert_eq!(batch.len(), 1);
    assert_eq!(batch[0].0, 2);
    assert_eq!(batch[0].1.instances, props(4, 3).instances);
    assert_eq!(batch[0].1.base_color_texture, 4);
    assert_eq!(batch[0].1.bind_group.model_transform, [[4; 4]; 4]);
}

#[test]
fn hidden_entities_never_in_batch() {
    let items: Vec<(u64, bool, ChunkGrass)> =
        (0..20u64).map(|i| (100 + i, i % 3 == 0, grass(i as u32))).collect();
    let batch = extract_chunk_grass(&items);
    let ids: Vec<u64> = batch.iter().map(|e| e.0).collect();
    assert_eq!(ids, vec![100, 103, 106, 109, 112, 115, 118]);
    for (id, visible, _) in &items {
        if !visible {
            assert!(!ids.contains(id));
        }
    }
    assert!(extract_chunk_grass(&vec![]).is_empty());
}

#[test]
fn grass_queue_waits_for_growth_texture() {
    let batch = extract_chunk_grass(&vec![(4u64, true, grass(1)), (5u64, true, grass(2))]);
    assert_eq!(queue_grass_chunks(&batch, true), vec![4, 5]);
    assert!(queue_grass_chunks(&batch, false).is_empty());
}

#[test]
fn instancing_queue_skips_unresolved_textures() {
    let batch = extract_chunk_instancings(&vec![
        (1u64, true, props(1, 1)),
        (2u64, true, props(2, 1)),
        (3u64, true, props(3, 1)),
    ]);
    assert_eq!(queue_instancing_chunks(&batch, &vec![true, false, true]), vec![1, 3]);
    assert!(queue_instancing_chunks(&batch, &vec![false, false, false]).is_empty());
}
