use vstd::prelude::*;

use vstd::arithmetic::div_mod::lemma_fundamental_div_mod_converse;

verus! {

/// Side length, in texels, of each layer of the default growth texture.
pub const GROWTH_TEXTURE_RESOLUTION: u32 = 100;

/// Number of layers of the default growth texture.
pub const GROWTH_TEXTURE_LAYERS: u32 = 2;

/// Noise seed of a layer: layers are seeded `1, 2, 3, ...`.
pub open spec fn layer_seed(layer: int) -> int {
    layer + 1
}

/// What texel `i` of a texture array with square layers of side `resolution` is
/// sampled from: `(seed of its layer, column, row)`. Layers are stored one after
/// another, each row by row.
pub open spec fn texel_source(i: int, resolution: int) -> (u32, u32, u32) {
    (
        layer_seed((i / resolution) / resolution) as u32,
        (i % resolution) as u32,
        ((i / resolution) % resolution) as u32,
    )
}

/// `data` is a growth texture array of `layer_count` square layers of side
/// `resolution`, each texel the value that `sample` gives for its source.
pub open spec fn is_growth_data<F: Fn(u32, u32, u32) -> u8>(
    sample: F,
    layer_count: u32,
    resolution: u32,
    data: Seq<u8>,
) -> bool {
    &&& data.len() == layer_count * resolution * resolution
    &&& forall|i: int| 0 <= i < data.len() ==> sample.ensures(texel_source(i, resolution as int), #[trigger] data[i])
}

/// `sample` gives at most one value for each seed, column and row.
pub open spec fn is_deterministic<F: Fn(u32, u32, u32) -> u8>(sample: F) -> bool {
    forall|args: (u32, u32, u32), a: u8, b: u8|
        #[trigger] sample.ensures(args, a) && #[trigger] sample.ensures(args, b) ==> a == b
}

proof fn lemma_texel_source(layer: int, row: int, column: int, resolution: int)
    requires
        0 <= layer,
        0 <= row < resolution,
        0 <= column < resolution,
        layer + 1 <= 0xffff_ffff,
    ensures
        texel_source((layer * resolution + row) * resolution + column, resolution) == (
            (layer + 1) as u32,
            column as u32,
            row as u32,
        ),
{
    let i = (layer * resolution + row) * resolution + column;
    lemma_fundamental_div_mod_converse(i, resolution, layer * resolution + row, column);
    lemma_fundamental_div_mod_converse(layer * resolution + row, resolution, layer, row);
}

/// Texel data of a growth texture array: `layer_count` layers of side `resolution`,
/// layer `l` sampled with seed `l + 1` at every column and row. `sample(seed, x, y)`
/// gives the 8-bit value of one texel.
pub fn growth_texture_data<F: Fn(u32, u32, u32) -> u8>(
    layer_count: u32,
    resolution: u32,
    sample: &F,
) -> (data: Vec<u8>)
    requires
        layer_count * resolution * resolution <= usize::MAX,
        forall|args: (u32, u32, u32)| sample.requires(args),
    ensures
        is_growth_data(*sample, layer_count, resolution, data@),
{
    let res = resolution as usize;
    let mut data: Vec<u8> = Vec::new();
    let mut layer: u32 = 0;
    while layer < layer_count
        invariant
            layer <= layer_count,
            res == resolution,
            layer_count * resolution * resolution <= usize::MAX,
            forall|args: (u32, u32, u32)| sample.requires(args),
            data@.len() == layer * resolution * resolution,
            forall|i: int| 0 <= i < data@.len() ==> sample.ensures(texel_source(i, resolution as int), #[trigger] data@[i]),
        decreases layer_count - layer,
    {
        let seed = layer + 1;
        let mut row: u32 = 0;
        while row < resolution
            invariant
                layer < layer_count,
                row <= resolution,
                res == resolution,
                seed == layer + 1,
                layer_count * resolution * resolution <= usize::MAX,
                forall|args: (u32, u32, u32)| sample.requires(args),
                data@.len() == (layer * resolution + row) * resolution,
                forall|i: int| 0 <= i < data@.len() ==> sample.ensures(texel_source(i, resolution as int), #[trigger] data@[i]),
            decreases resolution - row,
        {
            let mut column: u32 = 0;
            while column < resolution
                invariant
                    layer < layer_count,
                    row < resolution,
                    column <= resolution,
                    res == resolution,
                    seed == layer + 1,
                    layer_count * resolution * resolution <= usize::MAX,
                    forall|args: (u32, u32, u32)| sample.requires(args),
                    data@.len() == (layer * resolution + row) * resolution + column,
                    forall|i: int| 0 <= i < data@.len() ==> sample.ensures(texel_source(i, resolution as int), #[trigger] data@[i]),
                decreases resolution - column,
            {
                proof {
                    lemma_texel_source(layer as int, row as int, column as int, resolution as int);
                    assert((layer * resolution + row) * resolution + column < layer_count * resolution * resolution) by (nonlinear_arith)
                        requires layer < layer_count, row < resolution, column < resolution;
                }
                let value = sample(seed, column, row);
                data.push(value);
                column += 1;
            }
            row += 1;
            assert((layer * resolution + (row - 1)) * resolution + resolution == (layer * resolution + row) * resolution) by (nonlinear_arith);
        }
        layer += 1;
        assert((layer - 1) * resolution * resolution + resolution * resolution == layer * resolution * resolution) by (nonlinear_arith);
        assert(((layer - 1) * resolution + resolution) * resolution == layer * resolution * resolution) by (nonlinear_arith);
    }
    data
}

/// With a sampler that gives one value per seed, column and row, two growth
/// textures of the same layer count and resolution are identical.
pub proof fn lemma_growth_data_deterministic<F: Fn(u32, u32, u32) -> u8>(
    sample: F,
    layer_count: u32,
    resolution: u32,
    first: Seq<u8>,
    second: Seq<u8>,
)
    requires
        is_deterministic(sample),
        is_growth_data(sample, layer_count, resolution, first),
        is_growth_data(sample, layer_count, resolution, second),
    ensures
        first == second,
{
    assert forall|i: int| 0 <= i < first.len() implies first[i] == second[i] by {
        assert(sample.ensures(texel_source(i, resolution as int), first[i]));
        assert(sample.ensures(texel_source(i, resolution as int), second[i]));
    }
    assert(first =~= second);
}

} // verus!
