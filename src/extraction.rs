use vstd::prelude::*;

use crate::grass::{packed, ChunkGrass, GpuChunkGrass};
use crate::instancing::{ChunkInstancing, GpuChunkBindGroupData, Instance};

verus! {

/// The batch that one extraction produces from `(entity id, visible, component)`
/// records: the visible records, in order, keyed by entity id.
pub open spec fn visible_batch<T>(items: Seq<(u64, bool, T)>) -> Seq<(u64, T)>
    decreases items.len(),
{
    if items.len() == 0 {
        Seq::empty()
    } else {
        let prev = visible_batch(items.drop_last());
        let last = items.last();
        if last.1 {
            prev.push((last.0, last.2))
        } else {
            prev
        }
    }
}

/// No two records name the same entity.
pub open spec fn distinct_entities<T>(items: Seq<(u64, bool, T)>) -> bool {
    forall|i: int, j: int| 0 <= i < items.len() && 0 <= j < items.len() && i != j ==> items[i].0 != items[j].0
}

proof fn lemma_visible_batch_step<T>(items: Seq<(u64, bool, T)>, i: int)
    requires
        0 <= i < items.len(),
    ensures
        items.take(i + 1).drop_last() == items.take(i),
        items.take(i + 1).last() == items[i],
{
    assert(items.take(i + 1).drop_last() =~= items.take(i));
}

/// `e` is the id and component of some visible record.
spec fn from_visible<T>(items: Seq<(u64, bool, T)>, e: (u64, T)) -> bool {
    exists|i: int| 0 <= i < items.len() && items[i].1 && e == (items[i].0, items[i].2)
}

/// Every record of a batch comes from a visible record with the same id and component.
proof fn lemma_batch_from_visible<T>(items: Seq<(u64, bool, T)>)
    ensures
        forall|j: int| 0 <= j < visible_batch(items).len() ==> from_visible(items, #[trigger] visible_batch(items)[j]),
    decreases items.len(),
{
    if items.len() > 0 {
        let init = items.drop_last();
        lemma_batch_from_visible(init);
        let b = visible_batch(items);
        assert forall|j: int| 0 <= j < b.len() implies from_visible(items, #[trigger] b[j]) by {
            if j < visible_batch(init).len() {
                assert(from_visible(init, visible_batch(init)[j]));
                let i = choose|i: int|
                    0 <= i < init.len() && init[i].1 && visible_batch(init)[j] == (
                        init[i].0,
                        init[i].2,
                    );
                assert(items[i] == init[i]);
                assert(b[j] == visible_batch(init)[j]);
            } else {
                let i = items.len() - 1;
                assert(items[i] == items.last());
                assert(b[j] == (items[i].0, items[i].2));
            }
        }
    }
}

/// An entity that is hidden when extraction runs is not in the batch it produces.
pub proof fn lemma_extraction_excludes_hidden<T>(items: Seq<(u64, bool, T)>, k: int)
    requires
        distinct_entities(items),
        0 <= k < items.len(),
        !items[k].1,
    ensures
        forall|j: int| 0 <= j < visible_batch(items).len() ==> (#[trigger] visible_batch(items)[j]).0 != items[k].0,
{
    lemma_batch_from_visible(items);
    assert forall|j: int| 0 <= j < visible_batch(items).len() implies (#[trigger] visible_batch(items)[j]).0 != items[k].0 by {
        assert(from_visible(items, visible_batch(items)[j]));
    }
}

/// What the render world keeps of one visible chunk of scattered objects: its
/// placements, its bind-group data and its texture.
#[derive(Debug, Clone, PartialEq, Eq)]
pub struct ExtractedChunkInstancing {
    pub instances: Vec<Instance>,
    pub bind_group: GpuChunkBindGroupData,
    pub base_color_texture: u64,
}

impl View for ChunkInstancing {
    type V = (Seq<Instance>, [[u32; 4]; 4], u64);

    open spec fn view(&self) -> Self::V {
        (self.instances@, self.model_transform, self.base_color_texture)
    }
}

impl View for ExtractedChunkInstancing {
    type V = (Seq<Instance>, [[u32; 4]; 4], u64);

    open spec fn view(&self) -> Self::V {
        (self.instances@, self.bind_group.model_transform, self.base_color_texture)
    }
}

/// The records as extraction sees them, each component by its view.
pub open spec fn instancing_records(items: Seq<(u64, bool, ChunkInstancing)>) -> Seq<
    (u64, bool, (Seq<Instance>, [[u32; 4]; 4], u64)),
> {
    items.map_values(|e: (u64, bool, ChunkInstancing)| (e.0, e.1, e.2@))
}

/// A batch, each extracted record by its view.
pub open spec fn instancing_batch_view(batch: Seq<(u64, ExtractedChunkInstancing)>) -> Seq<
    (u64, (Seq<Instance>, [[u32; 4]; 4], u64)),
> {
    batch.map_values(|e: (u64, ExtractedChunkInstancing)| (e.0, e.1@))
}

fn copy_instances(v: &Vec<Instance>) -> (r: Vec<Instance>)
    ensures
        r@ == v@,
{
    let mut r: Vec<Instance> = Vec::new();
    let mut i: usize = 0;
    while i < v.len()
        invariant
            i <= v@.len(),
            r@ == v@.take(i as int),
        decreases v@.len() - i,
    {
        r.push(v[i]);
        i += 1;
        assert(r@ =~= v@.take(i as int));
    }
    assert(v@.take(v@.len() as int) =~= v@);
    r
}

/// Extraction of grass chunks: the visible chunks, keyed by entity id, each packed
/// into its uniform block. Hidden chunks are left out.
pub fn extract_chunk_grass(items: &Vec<(u64, bool, ChunkGrass)>) -> (batch: Vec<(u64, GpuChunkGrass)>)
    ensures
        batch@ == visible_batch(items@).map_values(|e: (u64, ChunkGrass)| (e.0, packed(e.1))),
{
    let mut batch: Vec<(u64, GpuChunkGrass)> = Vec::new();
    let mut i: usize = 0;
    while i < items.len()
        invariant
            i <= items@.len(),
            batch@ == visible_batch(items@.take(i as int)).map_values(
                |e: (u64, ChunkGrass)| (e.0, packed(e.1)),
            ),
        decreases items@.len() - i,
    {
        proof {
            lemma_visible_batch_step(items@, i as int);
        }
        let (entity, visible, grass) = items[i];
        if visible {
            batch.push((entity, grass.to_raw()));
        }
        i += 1;
        assert(batch@ =~= visible_batch(items@.take(i as int)).map_values(
            |e: (u64, ChunkGrass)| (e.0, packed(e.1)),
        ));
    }
    assert(items@.take(items@.len() as int) =~= items@);
    batch
}

/// Extraction of chunks of scattered objects: the visible chunks, keyed by entity
/// id, each with its placements, bind-group data and texture. Hidden chunks are
/// left out.
pub fn extract_chunk_instancings(items: &Vec<(u64, bool, ChunkInstancing)>) -> (batch: Vec<
    (u64, ExtractedChunkInstancing),
>)
    ensures
        instancing_batch_view(batch@) == visible_batch(instancing_records(items@)),
{
    let mut batch: Vec<(u64, ExtractedChunkInstancing)> = Vec::new();
    let mut i: usize = 0;
    while i < items.len()
        invariant
            i <= items@.len(),
            instancing_batch_view(batch@) == visible_batch(instancing_records(items@).take(i as int)),
        decreases items@.len() - i,
    {
        proof {
            lemma_visible_batch_step(instancing_records(items@), i as int);
        }
        let entity = items[i].0;
        let visible = items[i].1;
        let chunk = &items[i].2;
        if visible {
            let extracted = ExtractedChunkInstancing {
                instances: copy_instances(&chunk.instances),
                bind_group: chunk.to_raw_chunk_bind_group(),
                base_color_texture: chunk.base_color_texture,
            };
            batch.push((entity, extracted));
        }
        i += 1;
        assert(instancing_batch_view(batch@) =~= visible_batch(instancing_records(items@).take(i as int)));
    }
    assert(instancing_records(items@).take(items@.len() as int) =~= instancing_records(items@));
    batch
}

} // verus!
