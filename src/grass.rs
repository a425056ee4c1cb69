use vstd::prelude::*;

verus! {

/// Per-chunk grass parameters. Every `u32` here other than `nr_instances` is the
/// IEEE-754 bit pattern of the 32-bit float that the shader reads; colors are
/// linear RGBA.
#[derive(Debug, Clone, Copy, PartialEq, Eq)]
pub struct ChunkGrass {
    pub time: u32,
    pub healthy_tip_color: [u32; 4],
    pub healthy_middle_color: [u32; 4],
    pub healthy_base_color: [u32; 4],
    pub unhealthy_tip_color: [u32; 4],
    pub unhealthy_middle_color: [u32; 4],
    pub unhealthy_base_color: [u32; 4],
    pub chunk_xy: [u32; 2],
    pub chunk_half_extents: [u32; 2],
    pub nr_instances: u32,
    pub growth_texture_id: i32,
    pub height_modifier: u32,
    pub scale: u32,
}

/// The grass uniform block as the shader declares it: every scalar sits in the
/// first lane of its own four-lane slot, and the two vec2 fields share one slot.
#[derive(Debug, Clone, Copy, PartialEq, Eq)]
pub struct GpuChunkGrass {
    pub time: [u32; 4],
    pub healthy_tip_color: [u32; 4],
    pub healthy_middle_color: [u32; 4],
    pub healthy_base_color: [u32; 4],
    pub unhealthy_tip_color: [u32; 4],
    pub unhealthy_middle_color: [u32; 4],
    pub unhealthy_base_color: [u32; 4],
    pub chunk_xy: [u32; 2],
    pub chunk_half_extents: [u32; 2],
    pub growth_texture_id: [i32; 4],
    pub height_modifier: [u32; 4],
    pub scale: [u32; 4],
}

/// Number of 32-bit words in the grass uniform block (176 bytes).
pub const GPU_CHUNK_GRASS_WORDS: usize = 44;

/// The uniform block that a chunk's parameters pack into.
pub open spec fn packed(g: ChunkGrass) -> GpuChunkGrass {
    GpuChunkGrass {
        time: [g.time, 0, 0, 0],
        healthy_tip_color: g.healthy_tip_color,
        healthy_middle_color: g.healthy_middle_color,
        healthy_base_color: g.healthy_base_color,
        unhealthy_tip_color: g.unhealthy_tip_color,
        unhealthy_middle_color: g.unhealthy_middle_color,
        unhealthy_base_color: g.unhealthy_base_color,
        chunk_xy: g.chunk_xy,
        chunk_half_extents: g.chunk_half_extents,
        growth_texture_id: [g.growth_texture_id, 0, 0, 0],
        height_modifier: [g.height_modifier, 0, 0, 0],
        scale: [g.scale, 0, 0, 0],
    }
}

/// The two's-complement bit pattern of a signed lane.
pub open spec fn i32_bits(x: i32) -> u32 {
    if x >= 0 {
        x as u32
    } else {
        (x as int + 0x1_0000_0000) as u32
    }
}

/// The signed value whose two's-complement bit pattern is `w`.
pub open spec fn bits_i32(w: u32) -> i32 {
    if w < 0x8000_0000 {
        w as i32
    } else {
        (w as int - 0x1_0000_0000) as i32
    }
}

/// The two's-complement bit pattern of a signed lane.
fn lane_of_i32(x: i32) -> (r: u32)
    ensures
        r == i32_bits(x),
{
    if x >= 0 {
        x as u32
    } else {
        (x as i64 + 0x1_0000_0000i64) as u32
    }
}

/// The block's memory image, word by word, in declaration order.
pub open spec fn block_words(b: GpuChunkGrass) -> Seq<u32> {
    seq![
        b.time[0], b.time[1], b.time[2], b.time[3],
        b.healthy_tip_color[0], b.healthy_tip_color[1], b.healthy_tip_color[2], b.healthy_tip_color[3],
        b.healthy_middle_color[0], b.healthy_middle_color[1], b.healthy_middle_color[2], b.healthy_middle_color[3],
        b.healthy_base_color[0], b.healthy_base_color[1], b.healthy_base_color[2], b.healthy_base_color[3],
        b.unhealthy_tip_color[0], b.unhealthy_tip_color[1], b.unhealthy_tip_color[2], b.unhealthy_tip_color[3],
        b.unhealthy_middle_color[0], b.unhealthy_middle_color[1], b.unhealthy_middle_color[2], b.unhealthy_middle_color[3],
        b.unhealthy_base_color[0], b.unhealthy_base_color[1], b.unhealthy_base_color[2], b.unhealthy_base_color[3],
        b.chunk_xy[0], b.chunk_xy[1], b.chunk_half_extents[0], b.chunk_half_extents[1],
        i32_bits(b.growth_texture_id[0]), i32_bits(b.growth_texture_id[1]), i32_bits(b.growth_texture_id[2]), i32_bits(b.growth_texture_id[3]),
        b.height_modifier[0], b.height_modifier[1], b.height_modifier[2], b.height_modifier[3],
        b.scale[0], b.scale[1], b.scale[2], b.scale[3],
    ]
}

/// Four consecutive words starting at `at`, as one slot.
pub open spec fn slot(w: Seq<u32>, at: int) -> [u32; 4] {
    [w[at], w[at + 1], w[at + 2], w[at + 3]]
}

/// Reads a chunk's parameters back from the designated lanes of a memory image.
/// The instance count is not part of the block and is supplied separately.
pub open spec fn unpacked(w: Seq<u32>, nr_instances: u32) -> ChunkGrass {
    ChunkGrass {
        time: w[0],
        healthy_tip_color: slot(w, 4),
        healthy_middle_color: slot(w, 8),
        healthy_base_color: slot(w, 12),
        unhealthy_tip_color: slot(w, 16),
        unhealthy_middle_color: slot(w, 20),
        unhealthy_base_color: slot(w, 24),
        chunk_xy: [w[28], w[29]],
        chunk_half_extents: [w[30], w[31]],
        nr_instances,
        growth_texture_id: bits_i32(w[32]),
        height_modifier: w[36],
        scale: w[40],
    }
}

/// The padding lanes: the three lanes after each scalar.
pub open spec fn is_padding_lane(k: int) -> bool {
    (1 <= k < 4) || (33 <= k < 36) || (37 <= k < 40) || (41 <= k < 44)
}

impl ChunkGrass {
    /// Packs the parameters into the shader's uniform block layout.
    pub fn to_raw(&self) -> (r: GpuChunkGrass)
        ensures
            r == packed(*self),
    {
        GpuChunkGrass {
            time: [self.time, 0, 0, 0],
            healthy_tip_color: self.healthy_tip_color,
            healthy_middle_color: self.healthy_middle_color,
            healthy_base_color: self.healthy_base_color,
            unhealthy_tip_color: self.unhealthy_tip_color,
            unhealthy_middle_color: self.unhealthy_middle_color,
            unhealthy_base_color: self.unhealthy_base_color,
            chunk_xy: self.chunk_xy,
            chunk_half_extents: self.chunk_half_extents,
            growth_texture_id: [self.growth_texture_id, 0, 0, 0],
            height_modifier: [self.height_modifier, 0, 0, 0],
            scale: [self.scale, 0, 0, 0],
        }
    }
}

impl GpuChunkGrass {
    /// The block's memory image as 32-bit words, ready to upload.
    pub fn to_words(&self) -> (r: Vec<u32>)
        ensures
            r@ == block_words(*self),
            r@.len() == GPU_CHUNK_GRASS_WORDS,
    {
        let b = self;
        vec![
            b.time[0], b.time[1], b.time[2], b.time[3],
            b.healthy_tip_color[0], b.healthy_tip_color[1], b.healthy_tip_color[2], b.healthy_tip_color[3],
            b.healthy_middle_color[0], b.healthy_middle_color[1], b.healthy_middle_color[2], b.healthy_middle_color[3],
            b.healthy_base_color[0], b.healthy_base_color[1], b.healthy_base_color[2], b.healthy_base_color[3],
            b.unhealthy_tip_color[0], b.unhealthy_tip_color[1], b.unhealthy_tip_color[2], b.unhealthy_tip_color[3],
            b.unhealthy_middle_color[0], b.unhealthy_middle_color[1], b.unhealthy_middle_color[2], b.unhealthy_middle_color[3],
            b.unhealthy_base_color[0], b.unhealthy_base_color[1], b.unhealthy_base_color[2], b.unhealthy_base_color[3],
            b.chunk_xy[0], b.chunk_xy[1], b.chunk_half_extents[0], b.chunk_half_extents[1],
            lane_of_i32(b.growth_texture_id[0]), lane_of_i32(b.growth_texture_id[1]), lane_of_i32(b.growth_texture_id[2]), lane_of_i32(b.growth_texture_id[3]),
            b.height_modifier[0], b.height_modifier[1], b.height_modifier[2], b.height_modifier[3],
            b.scale[0], b.scale[1], b.scale[2], b.scale[3],
        ]
    }
}

/// Packing a chunk's parameters and reading its designated lanes back gives the
/// same parameters, and every padding lane of the packed image is zero.
pub proof fn lemma_chunk_grass_round_trip(g: ChunkGrass)
    ensures
        block_words(packed(g)).len() == GPU_CHUNK_GRASS_WORDS,
        unpacked(block_words(packed(g)), g.nr_instances) == g,
        forall|k: int| is_padding_lane(k) ==> block_words(packed(g))[k] == 0,
{
    let w = block_words(packed(g));
    assert(slot(w, 4) =~= g.healthy_tip_color);
    assert(slot(w, 8) =~= g.healthy_middle_color);
    assert(slot(w, 12) =~= g.healthy_base_color);
    assert(slot(w, 16) =~= g.unhealthy_tip_color);
    assert(slot(w, 20) =~= g.unhealthy_middle_color);
    assert(slot(w, 24) =~= g.unhealthy_base_color);
    assert([w[28], w[29]] =~= g.chunk_xy);
    assert([w[30], w[31]] =~= g.chunk_half_extents);
}

/// Sets the elapsed time of every chunk, leaving all other parameters as they were.
pub fn update_time_for_custom_material(grass_chunks: &mut Vec<ChunkGrass>, time: u32)
    ensures
        final(grass_chunks)@ == old(grass_chunks)@.map_values(
            |g: ChunkGrass| (ChunkGrass { time, ..g }),
        ),
{
    let n = grass_chunks.len();
    let mut i: usize = 0;
    while i < n
        invariant
            n == old(grass_chunks)@.len(),
            grass_chunks@.len() == n,
            i <= n,
            forall|j: int| 0 <= j < i ==> grass_chunks@[j] == (ChunkGrass { time, ..old(grass_chunks)@[j] }),
            forall|j: int| i <= j < n ==> grass_chunks@[j] == old(grass_chunks)@[j],
        decreases n - i,
    {
        let g = grass_chunks[i];
        grass_chunks.set(i, ChunkGrass { time, ..g });
        i += 1;
    }
    assert(grass_chunks@ =~= old(grass_chunks)@.map_values(|g: ChunkGrass| (ChunkGrass { time, ..g })));
}

} // verus!
