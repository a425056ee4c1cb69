use vstd::prelude::*;

verus! {

/// A bind group that the custom shaders consume.
#[derive(Debug, Clone, Copy, PartialEq, Eq)]
pub enum BindGroupSlot {
    View,
    Mesh,
    ChunkUniform,
    GrowthTextures,
    BaseColorTexture,
    GridConfig,
}

/// Which of the two custom pipelines.
#[derive(Debug, Clone, Copy, PartialEq, Eq)]
pub enum PipelineKind {
    Grass,
    Instancing,
}

/// The bind groups of a pipeline, in binding order: view, mesh, chunk uniform,
/// texture, and for grass the grid configuration last.
pub open spec fn bind_group_order(kind: PipelineKind) -> Seq<BindGroupSlot> {
    match kind {
        PipelineKind::Grass => seq![
            BindGroupSlot::View,
            BindGroupSlot::Mesh,
            BindGroupSlot::ChunkUniform,
            BindGroupSlot::GrowthTextures,
            BindGroupSlot::GridConfig,
        ],
        PipelineKind::Instancing => seq![
            BindGroupSlot::View,
            BindGroupSlot::Mesh,
            BindGroupSlot::ChunkUniform,
            BindGroupSlot::BaseColorTexture,
        ],
    }
}

/// The bind groups of a pipeline, in the order in which they are set; the `i`-th is
/// bound at index `i`.
pub fn bind_group_layouts(kind: PipelineKind) -> (r: Vec<BindGroupSlot>)
    ensures
        r@ == bind_group_order(kind),
{
    match kind {
        PipelineKind::Grass => vec![
            BindGroupSlot::View,
            BindGroupSlot::Mesh,
            BindGroupSlot::ChunkUniform,
            BindGroupSlot::GrowthTextures,
            BindGroupSlot::GridConfig,
        ],
        PipelineKind::Instancing => vec![
            BindGroupSlot::View,
            BindGroupSlot::Mesh,
            BindGroupSlot::ChunkUniform,
            BindGroupSlot::BaseColorTexture,
        ],
    }
}

/// Shader locations of the mesh's own vertex attributes: position, normal, UV.
pub const MESH_ATTRIBUTE_COUNT: u32 = 3;

/// Vertex buffer holding one `[x, y, z, scale]` record of four 32-bit floats per instance.
#[derive(Debug, Clone, Copy, PartialEq, Eq)]
pub struct InstanceBufferLayout {
    pub array_stride: u64,
    pub step_per_instance: bool,
    pub attribute_offset: u64,
    pub shader_location: u32,
    pub vertex_buffer_slot: u32,
}

/// The per-instance vertex buffer of the instancing pipeline: a 16-byte record per
/// instance, read at the first shader location after the mesh's attributes, from
/// the vertex buffer slot after the mesh's own.
pub fn instance_buffer_layout() -> (r: InstanceBufferLayout)
    ensures
        r == (InstanceBufferLayout {
            array_stride: 16,
            step_per_instance: true,
            attribute_offset: 0,
            shader_location: MESH_ATTRIBUTE_COUNT,
            vertex_buffer_slot: 1,
        }),
{
    InstanceBufferLayout {
        array_stride: 16,
        step_per_instance: true,
        attribute_offset: 0,
        shader_location: MESH_ATTRIBUTE_COUNT,
        vertex_buffer_slot: 1,
    }
}

} // verus!
