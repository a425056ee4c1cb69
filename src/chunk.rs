use vstd::prelude::*;

verus! {

/// Identifies one tile of the world grid by its integer chunk coordinates.
#[derive(Debug, Clone, Copy, PartialEq, Eq)]
pub struct Chunk {
    pub chunk_xy: [u32; 2],
}

impl Default for Chunk {
    fn default() -> (r: Self)
        ensures
            r.chunk_xy[0] == 0 && r.chunk_xy[1] == 0,
    {
        Chunk { chunk_xy: [0, 0] }
    }
}

/// A point in the world, in integer world units.
#[derive(Debug, Clone, Copy, PartialEq, Eq)]
pub struct WorldPosition {
    pub x: i32,
    pub y: i32,
    pub z: i32,
}

/// Per-entity culling threshold: the entity is hidden while the active camera is
/// farther away than `distance` world units.
#[derive(Debug, Clone, Copy, PartialEq, Eq)]
pub struct DistanceCulling {
    pub distance: u32,
}

impl Default for DistanceCulling {
    fn default() -> (r: Self)
        ensures
            r.distance == 1000,
    {
        DistanceCulling { distance: 1000 }
    }
}

/// Visibility flag of an entity, as the host's scheduler sees it.
#[derive(Debug, Clone, Copy, PartialEq, Eq)]
pub enum Visibility {
    Inherited,
    Hidden,
    Visible,
}

} // verus!
