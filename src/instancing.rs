use vstd::prelude::*;

verus! {

/// `rand::random` draws from the thread-local generator; nothing is known of the value.
pub assume_specification<T>[ rand::random::<T> ]() -> (r: T)
    where
        rand::distributions::Standard: rand::distributions::Distribution<T>,
;

/// Placements are fixed-point numbers: `FIXED_ONE` stands for 1.0.
pub const FIXED_ONE: u64 = 0x200_0000;

/// Exclusive bound of a unit-interval draw: a draw `k` stands for `k / UNIT_DRAW_RANGE`.
pub const UNIT_DRAW_RANGE: u64 = 0x100_0000;

/// One placed copy of a chunk's mesh: `[x, y, z, scale]`, each a fixed-point number
/// (see `FIXED_ONE`). `x` and `y` are world units relative to the chunk's corner.
#[derive(Debug, Clone, Copy, PartialEq, Eq)]
pub struct Instance {
    pub pos_xyz: [u64; 4],
}

/// The instance that unit-interval draws `kx`, `ky`, `ks` place in a chunk of
/// `chunk_size` world units: `x = kx / 2^24 * chunk_size`, the same for `y`,
/// `z = 0`, and `scale = ks / 2^24 * 0.5 + 0.5`.
pub open spec fn placement(kx: u64, ky: u64, ks: u64, chunk_size: u32) -> Instance {
    Instance {
        pos_xyz: [
            (2 * kx * chunk_size) as u64,
            (2 * ky * chunk_size) as u64,
            0,
            (UNIT_DRAW_RANGE + ks) as u64,
        ],
    }
}

/// `inst` is a placement from some unit-interval draws.
pub open spec fn is_placement(inst: Instance, chunk_size: u32) -> bool {
    exists|kx: u64, ky: u64, ks: u64|
        kx < UNIT_DRAW_RANGE && ky < UNIT_DRAW_RANGE && ks < UNIT_DRAW_RANGE && inst == placement(
            kx,
            ky,
            ks,
            chunk_size,
        )
}

/// `inst` lies in the chunk's footprint `[0, chunk_size)²` with `z = 0`, and its
/// scale lies in `[0.5, 1.0)`.
pub open spec fn within_chunk(inst: Instance, chunk_size: u32) -> bool {
    &&& inst.pos_xyz[0] < chunk_size * FIXED_ONE
    &&& inst.pos_xyz[1] < chunk_size * FIXED_ONE
    &&& inst.pos_xyz[2] == 0
    &&& FIXED_ONE / 2 <= inst.pos_xyz[3] < FIXED_ONE
}

/// Shader-side data of a chunk's bind group: the model matrix, column by column,
/// as 32-bit float bit patterns.
#[derive(Debug, Clone, Copy, PartialEq, Eq)]
pub struct GpuChunkBindGroupData {
    pub model_transform: [[u32; 4]; 4],
}

/// A chunk's scattered objects: their placements, the texture they share (a host
/// texture id) and the model matrix applied to each of them (column-major, as
/// 32-bit float bit patterns).
#[derive(Debug, Clone, PartialEq, Eq)]
pub struct ChunkInstancing {
    pub instances: Vec<Instance>,
    pub base_color_texture: u64,
    pub model_transform: [[u32; 4]; 4],
}

impl Default for ChunkInstancing {
    fn default() -> (r: Self)
        ensures
            r.instances@.len() == 0,
            r.base_color_texture == 0,
            forall|c: int, k: int| 0 <= c < 4 && 0 <= k < 4 ==> r.model_transform[c][k] == 0,
    {
        ChunkInstancing { instances: Vec::new(), base_color_texture: 0, model_transform: [[0; 4]; 4] }
    }
}

/// A unit-interval draw: the top 24 bits of a random word, as the standard
/// uniform float in `[0, 1)` takes them.
fn unit_draw() -> (k: u64)
    ensures
        k < UNIT_DRAW_RANGE,
{
    let word: u32 = rand::random::<u32>();
    let k: u32 = word >> 8u32;
    assert(word >> 8u32 < 0x100_0000u32) by (bit_vector);
    k as u64
}

impl ChunkInstancing {
    /// Places `nr_instances` copies at random in a chunk of `chunk_size` world units.
    /// Each instance takes three fresh draws, for `x`, `y` and `scale` in that order.
    pub fn new(
        nr_instances: u32,
        base_color_texture: u64,
        model_transform: [[u32; 4]; 4],
        chunk_size: u32,
    ) -> (r: Self)
        ensures
            r.instances@.len() == nr_instances,
            r.base_color_texture == base_color_texture,
            r.model_transform == model_transform,
            forall|i: int|
                0 <= i < nr_instances ==> is_placement(#[trigger] r.instances@[i], chunk_size),
            chunk_size > 0 ==> forall|i: int|
                0 <= i < nr_instances ==> within_chunk(#[trigger] r.instances@[i], chunk_size),
    {
        let mut instances: Vec<Instance> = Vec::new();
        let mut n: u32 = 0;
        while n < nr_instances
            invariant
                n <= nr_instances,
                instances@.len() == n,
                forall|i: int| 0 <= i < n ==> is_placement(#[trigger] instances@[i], chunk_size),
            decreases nr_instances - n,
        {
            let kx = unit_draw();
            let ky = unit_draw();
            let ks = unit_draw();
            proof {
                lemma_placement_bounds(kx, chunk_size);
                lemma_placement_bounds(ky, chunk_size);
            }
            let inst = Instance {
                pos_xyz: [2 * kx * chunk_size as u64, 2 * ky * chunk_size as u64, 0, UNIT_DRAW_RANGE + ks],
            };
            assert(inst == placement(kx, ky, ks, chunk_size));
            instances.push(inst);
            n += 1;
        }
        proof {
            assert forall|i: int| chunk_size > 0 && 0 <= i < nr_instances implies within_chunk(
                #[trigger] instances@[i],
                chunk_size,
            ) by {
                lemma_placement_within_chunk(instances@[i], chunk_size);
            }
        }
        ChunkInstancing { instances, base_color_texture, model_transform }
    }

    /// The bind-group data of the chunk: its model matrix.
    pub fn to_raw_chunk_bind_group(&self) -> (r: GpuChunkBindGroupData)
        ensures
            r.model_transform == self.model_transform,
    {
        GpuChunkBindGroupData { model_transform: self.model_transform }
    }
}

proof fn lemma_placement_bounds(k: u64, chunk_size: u32)
    requires
        k < UNIT_DRAW_RANGE,
    ensures
        2 * k * chunk_size < chunk_size * FIXED_ONE || chunk_size == 0,
        2 * k * chunk_size <= 0xffff_ffff_ffff_ffff,
{
    assert(2 * k * chunk_size <= 2 * UNIT_DRAW_RANGE * chunk_size) by (nonlinear_arith)
        requires k < UNIT_DRAW_RANGE;
    assert(chunk_size > 0 ==> 2 * k * chunk_size < chunk_size * FIXED_ONE) by (nonlinear_arith)
        requires k < UNIT_DRAW_RANGE, FIXED_ONE == 2 * UNIT_DRAW_RANGE;
}

/// Every placement from unit-interval draws lies in the chunk's footprint, at
/// height zero, with its scale in `[0.5, 1.0)`.
pub proof fn lemma_placement_within_chunk(inst: Instance, chunk_size: u32)
    requires
        chunk_size > 0,
        is_placement(inst, chunk_size),
    ensures
        within_chunk(inst, chunk_size),
{
    let (kx, ky, ks) = choose|kx: u64, ky: u64, ks: u64|
        kx < UNIT_DRAW_RANGE && ky < UNIT_DRAW_RANGE && ks < UNIT_DRAW_RANGE && inst == placement(
            kx,
            ky,
            ks,
            chunk_size,
        );
    lemma_placement_bounds(kx, chunk_size);
    lemma_placement_bounds(ky, chunk_size);
}

} // verus!
