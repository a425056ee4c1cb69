use chunk_foliage::{
    chunk_distance_culling, culled_visibility, distance_squared, exceeds_threshold, CullingTarget,
    DistanceCulling, Visibility, WorldPosition,
};

fn pos(x: i32, y: i32, z: i32) -> WorldPosition {
    WorldPosition { x, y, z }
}

fn target(p: WorldPosition, distance: u32, visibility: Visibility) -> CullingTarget {
    CullingTarget { position: p, visibility, culling: DistanceCulling { distance } }
}

#[test]
fn camera_above_entity_hidden_then_visible_when_threshold_raised() {
    let camera = pos(0, 0, 50);
    let entity = pos(0, 0, 0);
    assert_eq!(culled_visibility(&camera, &entity, &DistanceCulling { distance: 40 }), Visibility::Hidden);
    assert_eq!(culled_visibility(&camera, &entity, &DistanceCulling { distance: 60 }), Visibility::Visible);
}

#[test]
fn culling_pass_with_one_camera_sets_each_visibility() {
    let cameras = vec![pos(0, 0, 50)];
    let mut targets = vec![
        target(pos(0, 0, 0), 40, Visibility::Visible),
        target(pos(0, 0, 0), 60, Visibility::Hidden),
        target(pos(3, 4, 50), 5, Visibility::Inherited),
    ];
    chunk_distance_culling(&cameras, &mut targets);
    assert_eq!(targets[0].visibility, Visibility::Hidden);
    assert_eq!(targets[1].visibility, Visibility::Visible);
    // distance exactly at the threshold stays visible
    assert_eq!(targets[2].visibility, Visibility::Visible);
    assert_eq!(targets[2].culling.distance, 5);
    assert_eq!(targets[2].position, pos(3, 4, 50));
}

#[test]
fn culling_pass_without_camera_changes_nothing() {
    let before = vec![
        target(pos(0, 0, 0), 40, Visibility::Visible),
        target(pos(1000, 0, 0), 1, Visibility::Inherited),
    ];
    let mut targets = before.clone();
    chunk_distance_culling(&vec![], &mut targets);
    assert_eq!(targets, before);
}

#[test]
fn culling_pass_with_two_cameras_changes_nothing() {
    let before = vec![
        target(pos(0, 0, 0), 40, Visibility::Visible),
        target(pos(0, 0, 0), 60, Visibility::Hidden),
    ];
    let mut targets = before.clone();
    chunk_distance_culling(&vec![pos(0, 0, 50), pos(0, 0, 10)], &mut targets);
    assert_eq!(targets, before);
}

#[test]
fn raising_threshold_keeps_visible_entities_visible() {
    let camera = pos(7, -3, 12);
    let entity = pos(-20, 15, 0);
    let mut was_visible = false;
    for distance in 0..100u32 {
        let v = culled_visibility(&camera, &entity, &DistanceCulling { distance });
        if was_visible {
            assert_eq!(v, Visibility::Visible);
        }
        was_visible = v == Visibility::Visible;
    }
    assert!(was_visible);
}

#[test]
fn squared_distance_is_exact_at_coordinate_extremes() {
    let a = pos(i32::MIN, i32::MIN, i32::MIN);
    let b = pos(i32::MAX, i32::MAX, i32::MAX);
    let d = (u32::MAX as u128) * (u32::MAX as u128) * 3;
    assert_eq!(distance_squared(&a, &b), d);
    assert_eq!(distance_squared(&pos(1, 2, 3), &pos(4, 6, 3)), 25);
    assert!(!exceeds_threshold(&pos(1, 2, 3), &pos(4, 6, 3), 5));
    assert!(exceeds_threshold(&pos(1, 2, 3), &pos(4, 6, 3), 4));
    assert!(exceeds_threshold(&a, &b, u32::MAX));
}

#[test]
fn default_threshold_is_one_thousand() {
    assert_eq!(DistanceCulling::default().distance, 1000);
}
