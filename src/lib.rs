//! Chunked foliage rendering core: spatial chunks, distance culling, visible-only
//! extraction, GPU uniform layout, growth-texture assembly and instance placement.
//!
//! World positions and distances are integer world units. Values that the GPU reads
//! as 32-bit floats are carried as their IEEE-754 bit patterns in `u32` lanes, so the
//! layout logic here is exact and independent of floating-point arithmetic.

mod chunk;
mod culling;
mod draw;
mod extraction;
mod grass;
mod grid;
mod growth;
mod instancing;
mod pipeline;

pub use chunk::{Chunk, DistanceCulling, Visibility, WorldPosition};
pub use culling::{
    chunk_distance_culling, culled_visibility, distance_squared, exceeds_threshold,
    lemma_culling_monotone_in_threshold, CullingTarget,
};
pub use grass::{
    lemma_chunk_grass_round_trip, update_time_for_custom_material, ChunkGrass, GpuChunkGrass,
    GPU_CHUNK_GRASS_WORDS,
};
pub use grid::{grid_config_needs_upload, GridConfig};
pub use instancing::{
    lemma_placement_within_chunk, ChunkInstancing, GpuChunkBindGroupData, Instance, FIXED_ONE,
    UNIT_DRAW_RANGE,
};
pub use extraction::{
    extract_chunk_grass, extract_chunk_instancings, lemma_extraction_excludes_hidden,
    ExtractedChunkInstancing,
};
pub use growth::{
    growth_texture_data, lemma_growth_data_deterministic, GROWTH_TEXTURE_LAYERS,
    GROWTH_TEXTURE_RESOLUTION,
};
pub use draw::{
    grass_draw_call, instancing_draw_call, queue_grass_chunks, queue_instancing_chunks, DrawCall,
    DrawError, MeshIndexing,
};
pub use pipeline::{
    bind_group_layouts, instance_buffer_layout, BindGroupSlot, InstanceBufferLayout, PipelineKind,
    MESH_ATTRIBUTE_COUNT,
};
