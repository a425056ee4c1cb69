use vstd::prelude::*;

use crate::extraction::ExtractedChunkInstancing;
use crate::grass::ChunkGrass;

verus! {

/// How a mesh's vertices are addressed.
#[derive(Debug, Clone, Copy, PartialEq, Eq)]
pub enum MeshIndexing {
    Indexed { index_count: u32 },
    NonIndexed { vertex_count: u32 },
}

/// One instanced draw call.
#[derive(Debug, Clone, Copy, PartialEq, Eq)]
pub enum DrawCall {
    Indexed { index_count: u32, instance_count: u32 },
    NonIndexed { vertex_count: u32, instance_count: u32 },
}

/// A configuration that no draw call can be made from.
#[derive(Debug, Clone, Copy, PartialEq, Eq)]
pub enum DrawError {
    /// Grass is drawn from indexed meshes only.
    NonIndexedGrassMesh,
}

/// The draw call for a grass chunk: its mesh's indices, once per blade.
pub fn grass_draw_call(mesh: MeshIndexing, grass: &ChunkGrass) -> (r: Result<DrawCall, DrawError>)
    ensures
        match mesh {
            MeshIndexing::Indexed { index_count } => r == Ok::<DrawCall, DrawError>(
                DrawCall::Indexed { index_count, instance_count: grass.nr_instances },
            ),
            MeshIndexing::NonIndexed { .. } => r == Err::<DrawCall, DrawError>(
                DrawError::NonIndexedGrassMesh,
            ),
        },
{
    match mesh {
        MeshIndexing::Indexed { index_count } => Ok(
            DrawCall::Indexed { index_count, instance_count: grass.nr_instances },
        ),
        MeshIndexing::NonIndexed { .. } => Err(DrawError::NonIndexedGrassMesh),
    }
}

/// The draw call for a chunk of scattered objects: its whole mesh, once per placement,
/// indexed where the mesh is.
pub fn instancing_draw_call(mesh: MeshIndexing, chunk: &ExtractedChunkInstancing) -> (r: DrawCall)
    requires
        chunk.instances@.len() <= u32::MAX,
    ensures
        match mesh {
            MeshIndexing::Indexed { index_count } => r == DrawCall::Indexed {
                index_count,
                instance_count: chunk.instances@.len() as u32,
            },
            MeshIndexing::NonIndexed { vertex_count } => r == DrawCall::NonIndexed {
                vertex_count,
                instance_count: chunk.instances@.len() as u32,
            },
        },
{
    let instance_count = chunk.instances.len() as u32;
    match mesh {
        MeshIndexing::Indexed { index_count } => DrawCall::Indexed { index_count, instance_count },
        MeshIndexing::NonIndexed { vertex_count } => DrawCall::NonIndexed {
            vertex_count,
            instance_count,
        },
    }
}

/// The ids of a batch, in order.
pub open spec fn batch_ids<T>(batch: Seq<(u64, T)>) -> Seq<u64> {
    batch.map_values(|e: (u64, T)| e.0)
}

/// The ids of the batch records whose flag is set, in order.
pub open spec fn ready_ids<T>(batch: Seq<(u64, T)>, ready: Seq<bool>) -> Seq<u64>
    decreases batch.len(),
{
    if batch.len() == 0 {
        Seq::empty()
    } else {
        let prev = ready_ids(batch.drop_last(), ready);
        if ready[batch.len() - 1] {
            prev.push(batch.last().0)
        } else {
            prev
        }
    }
}

/// The grass chunks to draw this frame: every chunk of this frame's batch, or none
/// while the shared growth texture is not ready.
pub fn queue_grass_chunks<T>(batch: &Vec<(u64, T)>, growth_texture_ready: bool) -> (r: Vec<u64>)
    ensures
        growth_texture_ready ==> r@ == batch_ids(batch@),
        !growth_texture_ready ==> r@.len() == 0,
{
    let mut r: Vec<u64> = Vec::new();
    if !growth_texture_ready {
        return r;
    }
    let mut i: usize = 0;
    while i < batch.len()
        invariant
            i <= batch@.len(),
            r@ == batch_ids(batch@.take(i as int)),
        decreases batch@.len() - i,
    {
        r.push(batch[i].0);
        i += 1;
        assert(r@ =~= batch_ids(batch@.take(i as int)));
    }
    assert(batch@.take(batch@.len() as int) =~= batch@);
    r
}

/// The chunks of scattered objects to draw this frame: those of this frame's batch
/// whose base texture is ready (`texture_ready[i]` for the `i`-th record).
pub fn queue_instancing_chunks(
    batch: &Vec<(u64, ExtractedChunkInstancing)>,
    texture_ready: &Vec<bool>,
) -> (r: Vec<u64>)
    requires
        texture_ready@.len() == batch@.len(),
    ensures
        r@ == ready_ids(batch@, texture_ready@),
{
    let mut r: Vec<u64> = Vec::new();
    let mut i: usize = 0;
    while i < batch.len()
        invariant
            i <= batch@.len(),
            texture_ready@.len() == batch@.len(),
            r@ == ready_ids(batch@.take(i as int), texture_ready@),
        decreases batch@.len() - i,
    {
        assert(batch@.take(i + 1).drop_last() =~= batch@.take(i as int));
        if texture_ready[i] {
            r.push(batch[i].0);
        }
        i += 1;
    }
    assert(batch@.take(batch@.len() as int) =~= batch@);
    r
}

} // verus!
