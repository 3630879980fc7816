//! Behavior of the engine core: entity allocation, motion, camera limits,
//! selection policies, the drag lifecycle, and the render buffer. All
//! scalars are fixed-point millionths, so 1_000_000 is 1.0.

use engine::{Engine, EngineError, V3, DIST_MAX, DIST_MIN, HALF, PITCH_MAX, SCALE};

fn units(n: i64) -> i64 {
    n * SCALE
}

#[test]
fn entity_ids_count_up_and_stores_stay_parallel() {
    let mut e = Engine::new();
    assert_eq!(e.create_entity(), 0);
    assert_eq!(e.create_entity(), 1);
    assert_eq!(e.create_entity(), 2);
    assert_eq!(e.transforms.len(), 3);
    assert_eq!(e.velocities.len(), 3);
    assert_eq!(e.selected.len(), 3);
    assert_eq!(e.dragging.len(), 3);
    assert_eq!(e.drag_offset.len(), 3);
    assert!(e.transforms.iter().all(|t| t.is_none()));
    assert!(e.selected.iter().all(|s| !s));
}

#[test]
fn add_transform_installs_defaults() {
    let mut e = Engine::new();
    let id = e.create_entity();
    assert!(e.add_transform(id, units(1), units(2), units(3)).is_ok());
    let t = e.transforms[0].unwrap();
    assert_eq!((t.position.x, t.position.y, t.position.z), (units(1), units(2), units(3)));
    assert_eq!((t.rotation.x, t.rotation.y, t.rotation.z), (0, 0, 0));
    assert_eq!((t.scale.x, t.scale.y, t.scale.z), (HALF, HALF, HALF));
}

#[test]
fn out_of_range_entity_is_rejected() {
    let mut e = Engine::new();
    assert_eq!(e.add_transform(0, 0, 0, 0), Err(EngineError::InvalidEntity));
    e.create_entity();
    assert_eq!(e.add_transform(1, 0, 0, 0), Err(EngineError::InvalidEntity));
    assert_eq!(e.add_velocity(7, 0, 0, 0), Err(EngineError::InvalidEntity));
    assert!(e.add_velocity(0, 0, 0, 0).is_ok());
}

#[test]
fn update_advances_position_and_spin() {
    let mut e = Engine::new();
    let id = e.create_entity();
    e.add_transform(id, 0, 0, 0).unwrap();
    e.add_velocity(id, units(1), units(2), -units(1)).unwrap();
    e.update(HALF); // delta = 0.5
    let t = e.transforms[0].unwrap();
    assert_eq!(t.position.x, 500_000);
    assert_eq!(t.position.y, 1_000_000);
    assert_eq!(t.position.z, -500_000);
    assert_eq!(t.rotation.y, HALF);
    e.update(HALF);
    let t = e.transforms[0].unwrap();
    assert_eq!(t.position.x, 1_000_000);
    assert_eq!(t.rotation.y, SCALE);
}

#[test]
fn update_without_velocity_leaves_transform_alone() {
    let mut e = Engine::new();
    let id = e.create_entity();
    e.add_transform(id, units(4), 0, 0).unwrap();
    e.update(SCALE);
    let t = e.transforms[0].unwrap();
    assert_eq!(t.position.x, units(4));
    assert_eq!(t.rotation.y, 0);
}

#[test]
fn camera_orbit_clamps_pitch_and_zoom_clamps_distance() {
    let mut e = Engine::new();
    e.set_camera(0, 0, units(10), SCALE, SCALE, 100_000, units(100));
    e.camera_orbit(units(10), units(10));
    let cam = e.camera.unwrap();
    assert_eq!(cam.pitch, PITCH_MAX);
    assert_eq!(cam.yaw, units(10));
    e.camera_orbit(0, -units(20));
    assert_eq!(e.camera.unwrap().pitch, -PITCH_MAX);
    e.camera_zoom(units(100));
    assert_eq!(e.camera.unwrap().distance, DIST_MAX);
    e.camera_zoom(-units(1000));
    assert_eq!(e.camera.unwrap().distance, DIST_MIN);
    // Pitch was untouched by the zooms.
    assert_eq!(e.camera.unwrap().pitch, -PITCH_MAX);
}

#[test]
fn camera_calls_before_configuration_are_no_ops() {
    let mut e = Engine::new();
    e.camera_orbit(units(1), units(1));
    e.camera_zoom(units(1));
    e.camera_pan(units(1), units(1));
    e.focus_selected();
    assert!(e.camera.is_none());
    e.update(SCALE);
    assert!(e.view_proj().iter().all(|v| *v == 0));
}

#[test]
fn set_camera_back_solves_orbit_parameters() {
    let mut e = Engine::new();
    // Eye (0, 3, 4): distance 5 exactly, yaw atan2(0, 4) = 0.
    e.set_camera(0, units(3), units(4), SCALE, SCALE, 100_000, units(100));
    let cam = e.camera.unwrap();
    assert_eq!(cam.distance, units(5));
    assert_eq!(cam.yaw, 0);
    // asin(3/5) by the engine's arctangent polynomial: 0.640235 rad.
    assert_eq!(cam.pitch, 640_235);
    assert_eq!((cam.target.x, cam.target.y, cam.target.z), (0, 0, 0));
}

#[test]
fn set_camera_floors_distance_at_epsilon() {
    let mut e = Engine::new();
    e.set_camera(0, 0, 0, SCALE, SCALE, 100_000, units(100));
    assert_eq!(e.camera.unwrap().distance, engine::EPS);
}

#[test]
fn camera_pan_shifts_target() {
    let mut e = Engine::new();
    e.set_camera(0, 0, units(10), SCALE, SCALE, 100_000, units(100));
    e.camera_pan(units(2), -units(1));
    let cam = e.camera.unwrap();
    assert_eq!((cam.target.x, cam.target.y, cam.target.z), (units(2), -units(1), 0));
}

#[test]
fn focus_selected_targets_centroid() {
    let mut e = Engine::new();
    e.set_camera(0, 0, units(10), SCALE, SCALE, 100_000, units(100));
    let a = e.create_entity();
    let b = e.create_entity();
    e.add_transform(a, units(2), 0, units(4)).unwrap();
    e.add_transform(b, units(4), units(2), 0).unwrap();
    e.selected[a as usize] = true;
    e.selected[b as usize] = true;
    e.focus_selected();
    let cam = e.camera.unwrap();
    assert_eq!((cam.target.x, cam.target.y, cam.target.z), (units(3), units(1), units(2)));
}

#[test]
fn focus_selected_without_selection_is_a_no_op() {
    let mut e = Engine::new();
    e.set_camera(0, 0, units(10), SCALE, SCALE, 100_000, units(100));
    let a = e.create_entity();
    e.add_transform(a, units(2), 0, 0).unwrap();
    e.focus_selected();
    let cam = e.camera.unwrap();
    assert_eq!((cam.target.x, cam.target.y, cam.target.z), (0, 0, 0));
}

#[test]
fn render_buffer_has_twenty_floats_per_visible_entity() {
    let mut e = Engine::new();
    let a = e.create_entity();
    let _b = e.create_entity();
    let c = e.create_entity();
    e.add_transform(a, 0, 0, 0).unwrap();
    e.add_transform(c, units(1), 0, 0).unwrap();
    e.update(0);
    // Entity b has no transform and contributes nothing.
    assert_eq!(e.render_buffer_len(), 40);
    e.selected[a as usize] = true;
    e.update(0);
    // Selection changes colors, never the length.
    assert_eq!(e.render_buffer_len(), 40);
}

#[test]
fn render_buffer_packs_model_matrix_then_color() {
    let mut e = Engine::new();
    let a = e.create_entity();
    e.add_transform(a, units(1), units(2), units(3)).unwrap();
    e.update(0);
    let buf = e.render_buffer();
    assert_eq!(buf.len(), 20);
    // Unrotated model matrix: scale on the diagonal, position in the
    // translation column, homogeneous one.
    assert_eq!(buf[0], HALF);
    assert_eq!(buf[5], HALF);
    assert_eq!(buf[10], HALF);
    assert_eq!((buf[12], buf[13], buf[14]), (units(1), units(2), units(3)));
    assert_eq!(buf[15], SCALE);
    // Default body color 0.2, 0.7, 1.0, 1.0.
    assert_eq!(&buf[16..20], &[200_000, 700_000, SCALE, SCALE]);
    e.selected[0] = true;
    e.update(0);
    let buf = e.render_buffer();
    // Highlight color 1.0, 0.3, 0.1, 1.0.
    assert_eq!(&buf[16..20], &[SCALE, 300_000, 100_000, SCALE]);
}

#[test]
fn view_proj_is_recomputed_each_frame() {
    let mut e = Engine::new();
    e.set_camera(0, 0, units(10), SCALE, SCALE, 100_000, units(100));
    e.update(0);
    let vp = e.view_proj();
    assert_eq!(vp.len(), 16);
    // Eye (0, 0, 10) looking at the origin: the perspective w row and the
    // view translation land in exact entries.
    assert_eq!(vp[11], -SCALE);
    assert_eq!(vp[15], units(10));
    assert_eq!(vp[3], 0);
    // The focal term 1/tan(fov/2) for fov = 1 rad is about 1.83.
    assert!(vp[0] > 1_500_000 && vp[0] < 2_100_000);
    assert_eq!(vp[0], vp[5]);
}

#[test]
fn pick_hits_nearest_entity_and_reports_index() {
    let mut e = Engine::new();
    let a = e.create_entity();
    let b = e.create_entity();
    e.add_transform(a, 0, 0, units(2)).unwrap();
    e.add_transform(b, 0, 0, units(6)).unwrap();
    // Ray down the +Z axis hits both; the nearer entity a wins.
    let hit = e.pick(0, 0, -units(3), 0, 0, SCALE, false, false);
    assert_eq!(hit, 0);
    assert!(e.selected[0]);
    assert!(!e.selected[1]);
}

#[test]
fn pick_miss_returns_minus_one_and_keeps_selection() {
    let mut e = Engine::new();
    let a = e.create_entity();
    e.add_transform(a, 0, 0, 0).unwrap();
    e.selected[0] = true;
    let hit = e.pick(units(5), units(5), units(5), 0, 0, SCALE, false, false);
    assert_eq!(hit, -1);
    assert!(e.selected[0]);
}

#[test]
fn pick_toggle_flips_only_the_hit_entity() {
    let mut e = Engine::new();
    let a = e.create_entity();
    let b = e.create_entity();
    e.add_transform(a, 0, 0, 0).unwrap();
    e.add_transform(b, units(5), 0, 0).unwrap();
    e.selected[1] = true;
    let hit = e.pick(0, 0, -units(3), 0, 0, SCALE, false, true);
    assert_eq!(hit, 0);
    assert!(e.selected[0]);
    assert!(e.selected[1]);
    let hit = e.pick(0, 0, -units(3), 0, 0, SCALE, false, true);
    assert_eq!(hit, 0);
    assert!(!e.selected[0]);
    assert!(e.selected[1]);
}

#[test]
fn pick_additive_then_plain_click() {
    let mut e = Engine::new();
    let a = e.create_entity();
    let b = e.create_entity();
    e.add_transform(a, 0, 0, 0).unwrap();
    e.add_transform(b, units(5), 0, 0).unwrap();
    e.selected[1] = true;
    // Additive pick hitting entity 0: both end up selected.
    let hit = e.pick(0, 0, -units(3), 0, 0, SCALE, true, false);
    assert_eq!(hit, 0);
    assert!(e.selected[0] && e.selected[1]);
    // Plain click hitting entity 0: only entity 0 stays selected.
    let hit = e.pick(0, 0, -units(3), 0, 0, SCALE, false, false);
    assert_eq!(hit, 0);
    assert!(e.selected[0]);
    assert!(!e.selected[1]);
}

#[test]
fn pick_scenario_through_configured_camera() {
    let mut e = Engine::new();
    let id = e.create_entity();
    assert_eq!(id, 0);
    e.add_transform(0, 0, 0, 0).unwrap();
    e.set_camera(0, units(5), units(10), SCALE, SCALE, 100_000, units(100));
    // Ray from the eye toward the origin.
    let hit = e.pick(0, units(5), units(10), 0, -units(5), -units(10), false, false);
    assert_eq!(hit, 0);
    assert!(e.selected[0]);
    // Toggling with the same ray hits again and clears the flag.
    let hit = e.pick(0, units(5), units(10), 0, -units(5), -units(10), false, true);
    assert_eq!(hit, 0);
    assert!(!e.selected[0]);
}

#[test]
fn degenerate_ray_hits_nothing() {
    let mut e = Engine::new();
    let a = e.create_entity();
    e.add_transform(a, 0, 0, 0).unwrap();
    // A zero direction is parallel to every slab pair but starts outside
    // none; it must resolve as a miss, not a fault. Start outside the box.
    let hit = e.pick(units(3), units(3), units(3), 0, 0, 0, false, false);
    assert_eq!(hit, -1);
}

#[test]
fn drag_round_trip_keeps_offset() {
    let mut e = Engine::new();
    let a = e.create_entity();
    e.add_transform(a, units(3), 0, units(2)).unwrap();
    e.selected[0] = true;
    // Begin: ray from (0, 5, 0) sloping down +x meets y = 0 at (5, 0, 0).
    e.begin_drag(0, units(5), 0, SCALE, -SCALE, 0);
    assert!(e.dragging[0]);
    let off = e.drag_offset[0];
    assert_eq!((off.x, off.y, off.z), (-units(2), 0, units(2)));
    // Move: a steeper ray meets the plane at (10, 0, 0).
    e.update_drag_ray(0, units(5), 0, units(2), -SCALE, 0);
    e.update(0);
    let t = e.transforms[0].unwrap();
    assert_eq!((t.position.x, t.position.y, t.position.z), (units(8), 0, units(2)));
    // End: flags drop, the ray is discarded, positions stay.
    e.end_drag();
    assert!(!e.dragging[0]);
    assert!(e.current_drag_ray.is_none());
    e.update(0);
    let t = e.transforms[0].unwrap();
    assert_eq!(t.position.x, units(8));
}

#[test]
fn render_buffer_lags_one_frame_behind_a_drag() {
    let mut e = Engine::new();
    let a = e.create_entity();
    e.add_transform(a, units(3), 0, units(2)).unwrap();
    e.selected[0] = true;
    e.begin_drag(0, units(5), 0, SCALE, -SCALE, 0);
    e.update_drag_ray(0, units(5), 0, units(2), -SCALE, 0);
    e.update(0);
    // The buffer is packed before the drag system runs, so it still shows
    // the old position; the moved position appears one frame later.
    assert_eq!(e.render_buffer()[12], units(3));
    assert_eq!(e.transforms[0].unwrap().position.x, units(8));
    e.update(0);
    assert_eq!(e.render_buffer()[12], units(8));
}

#[test]
fn stored_parallel_ray_moves_nothing() {
    let mut e = Engine::new();
    let a = e.create_entity();
    e.add_transform(a, units(3), 0, 0).unwrap();
    e.selected[0] = true;
    e.begin_drag(0, units(5), 0, SCALE, -SCALE, 0);
    assert!(e.dragging[0]);
    // The streamed ray runs parallel to the plane: positions stay put.
    e.update_drag_ray(0, units(5), 0, SCALE, 0, 0);
    e.update(0);
    assert_eq!(e.transforms[0].unwrap().position.x, units(3));
}

#[test]
fn begin_drag_skips_unselected_and_transformless() {
    let mut e = Engine::new();
    let a = e.create_entity();
    let b = e.create_entity();
    e.add_transform(a, units(1), 0, 0).unwrap();
    e.selected[1] = true; // selected but has no transform
    e.begin_drag(0, units(5), 0, SCALE, -SCALE, 0);
    assert!(!e.dragging[0]);
    assert!(!e.dragging[1]);
}

#[test]
fn drag_ray_parallel_to_plane_starts_nothing() {
    let mut e = Engine::new();
    let a = e.create_entity();
    e.add_transform(a, units(1), 0, 0).unwrap();
    e.selected[0] = true;
    e.begin_drag(0, units(5), 0, SCALE, 0, 0);
    assert!(!e.dragging[0]);
    // A ray crossing the plane behind its origin starts nothing either.
    e.begin_drag(0, units(5), 0, SCALE, SCALE, 0);
    assert!(!e.dragging[0]);
}

#[test]
fn axis_ray_hit_distance_is_half_scale() {
    let mut e = Engine::new();
    let a = e.create_entity();
    e.add_transform(a, units(2), 0, 0).unwrap();
    // A unit ray along +X from one scale away (0.5 units): the face sits
    // at 1.75, so the hit parameter is 0.25 - half the scale.
    let hit = e.pick(units(2) - HALF, 0, 0, SCALE, 0, 0, false, false);
    assert_eq!(hit, 0);
    // The same geometry at the intersection level reports the parameter.
    let o = V3 { x: -SCALE, y: 0, z: 0 };
    let d = V3 { x: 2 * SCALE, y: 0, z: 0 };
    assert_eq!(engine::ray::ray_aabb(o, d), Some(250_000));
}
