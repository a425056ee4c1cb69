use vstd::prelude::*;

verus! {

/// Footprint of the whole terrain, in integer world units: its center and its
/// half-extents along x and y. Half-extents are non-negative by their type.
#[derive(Debug, Clone, Copy, PartialEq, Eq)]
pub struct GridConfig {
    pub grid_center_xy: [i32; 2],
    pub grid_half_extents: [u32; 2],
}

impl Default for GridConfig {
    fn default() -> (r: Self)
        ensures
            r.grid_center_xy == [0i32, 0i32],
            r.grid_half_extents == [0u32, 0u32],
    {
        GridConfig { grid_center_xy: [0, 0], grid_half_extents: [0, 0] }
    }
}

impl GridConfig {
    /// Full size of the grid: twice the half-extents, per axis.
    pub fn get_size(&self) -> (r: [u64; 2])
        ensures
            r[0] == 2 * self.grid_half_extents[0],
            r[1] == 2 * self.grid_half_extents[1],
    {
        [2 * self.grid_half_extents[0] as u64, 2 * self.grid_half_extents[1] as u64]
    }
}

/// Whether the grid configuration must be packed and uploaded again: it is, unless
/// the version last uploaded is the current one.
pub fn grid_config_needs_upload(current_version: u64, uploaded_version: Option<u64>) -> (r: bool)
    ensures
        r == (uploaded_version != Some(current_version)),
{
    match uploaded_version {
        Some(v) => v != current_version,
        None => true,
    }
}

} // verus!
