use vstd::prelude::*;

use crate::chunk::{DistanceCulling, Visibility, WorldPosition};

verus! {

/// Squared Euclidean distance between two world positions.
pub open spec fn distance_sq(a: WorldPosition, b: WorldPosition) -> int {
    let dx = a.x as int - b.x as int;
    let dy = a.y as int - b.y as int;
    let dz = a.z as int - b.z as int;
    dx * dx + dy * dy + dz * dz
}

/// Whether `entity` lies strictly farther than `threshold` from `camera`. Distances
/// are non-negative, so comparing squares decides the same question as comparing
/// the distances themselves.
pub open spec fn beyond(camera: WorldPosition, entity: WorldPosition, threshold: u32) -> bool {
    distance_sq(camera, entity) > threshold as int * threshold as int
}

/// The visibility that culling assigns to an entity.
pub open spec fn culled(camera: WorldPosition, entity: WorldPosition, threshold: u32) -> Visibility {
    if beyond(camera, entity, threshold) {
        Visibility::Hidden
    } else {
        Visibility::Visible
    }
}

/// One entity taking part in distance culling.
#[derive(Debug, Clone, Copy, PartialEq, Eq)]
pub struct CullingTarget {
    pub position: WorldPosition,
    pub visibility: Visibility,
    pub culling: DistanceCulling,
}

/// What one culling pass makes of an entity, given the camera.
pub open spec fn culled_target(camera: WorldPosition, t: CullingTarget) -> CullingTarget {
    CullingTarget { visibility: culled(camera, t.position, t.culling.distance), ..t }
}

/// Squared distance between two positions, computed exactly.
pub fn distance_squared(a: &WorldPosition, b: &WorldPosition) -> (r: u128)
    ensures
        r as int == distance_sq(*a, *b),
{
    let dx: i64 = a.x as i64 - b.x as i64;
    let dy: i64 = a.y as i64 - b.y as i64;
    let dz: i64 = a.z as i64 - b.z as i64;
    let ax: u64 = if dx < 0 { (0 - dx) as u64 } else { dx as u64 };
    let ay: u64 = if dy < 0 { (0 - dy) as u64 } else { dy as u64 };
    let az: u64 = if dz < 0 { (0 - dz) as u64 } else { dz as u64 };
    assert(ax as int * ax as int == dx as int * dx as int) by (nonlinear_arith)
        requires ax as int == dx as int || ax as int == -(dx as int);
    assert(ay as int * ay as int == dy as int * dy as int) by (nonlinear_arith)
        requires ay as int == dy as int || ay as int == -(dy as int);
    assert(az as int * az as int == dz as int * dz as int) by (nonlinear_arith)
        requires az as int == dz as int || az as int == -(dz as int);
    assert(ax < 0x1_0000_0000 && ay < 0x1_0000_0000 && az < 0x1_0000_0000);
    assert(ax as int * ax as int <= 0xffff_ffff * 0xffff_ffff) by (nonlinear_arith)
        requires ax < 0x1_0000_0000;
    assert(ay as int * ay as int <= 0xffff_ffff * 0xffff_ffff) by (nonlinear_arith)
        requires ay < 0x1_0000_0000;
    assert(az as int * az as int <= 0xffff_ffff * 0xffff_ffff) by (nonlinear_arith)
        requires az < 0x1_0000_0000;
    let sx: u128 = ax as u128 * ax as u128;
    let sy: u128 = ay as u128 * ay as u128;
    let sz: u128 = az as u128 * az as u128;
    sx + sy + sz
}

/// Whether `entity` is strictly farther than `threshold` from `camera`.
pub fn exceeds_threshold(camera: &WorldPosition, entity: &WorldPosition, threshold: u32) -> (r:
    bool)
    ensures
        r == beyond(*camera, *entity, threshold),
{
    let d = distance_squared(camera, entity);
    assert(threshold as int * threshold as int <= 0xffff_ffff * 0xffff_ffff) by (nonlinear_arith)
        requires threshold <= 0xffff_ffff;
    let t: u128 = threshold as u128 * threshold as u128;
    d > t
}

/// Visibility of an entity at `entity` with culling threshold `culling`, seen from `camera`:
/// hidden when the distance exceeds the threshold, visible otherwise.
pub fn culled_visibility(camera: &WorldPosition, entity: &WorldPosition, culling: &DistanceCulling)
    -> (r: Visibility)
    ensures
        r == culled(*camera, *entity, culling.distance),
{
    if exceeds_threshold(camera, entity, culling.distance) {
        Visibility::Hidden
    } else {
        Visibility::Visible
    }
}

/// One culling pass over `targets`. With exactly one camera, every target's
/// visibility is set from its distance to that camera; with zero or several
/// cameras the pass changes nothing.
pub fn chunk_distance_culling(cameras: &Vec<WorldPosition>, targets: &mut Vec<CullingTarget>)
    ensures
        cameras.len() != 1 ==> final(targets)@ == old(targets)@,
        cameras.len() == 1 ==> final(targets)@ == old(targets)@.map_values(
            |t: CullingTarget| culled_target(cameras@[0], t),
        ),
{
    if cameras.len() != 1 {
        return;
    }
    let camera = cameras[0];
    let n = targets.len();
    let mut i: usize = 0;
    while i < n
        invariant
            n == old(targets)@.len(),
            targets@.len() == n,
            i <= n,
            camera == cameras@[0],
            forall|j: int| 0 <= j < i ==> targets@[j] == culled_target(camera, old(targets)@[j]),
            forall|j: int| i <= j < n ==> targets@[j] == old(targets)@[j],
        decreases n - i,
    {
        let t = targets[i];
        let v = culled_visibility(&camera, &t.position, &t.culling);
        targets.set(i, CullingTarget { visibility: v, ..t });
        i += 1;
    }
    assert(targets@ =~= old(targets)@.map_values(|t: CullingTarget| culled_target(camera, t)));
}

/// Raising an entity's culling threshold, with camera and entity held in place,
/// never turns a visible entity hidden.
pub proof fn lemma_culling_monotone_in_threshold(
    camera: WorldPosition,
    entity: WorldPosition,
    lower: u32,
    higher: u32,
)
    requires
        lower <= higher,
        culled(camera, entity, lower) == Visibility::Visible,
    ensures
        culled(camera, entity, higher) == Visibility::Visible,
{
    assert(lower as int * lower as int <= higher as int * higher as int) by (nonlinear_arith)
        requires 0 <= lower <= higher;
}

} // verus!
