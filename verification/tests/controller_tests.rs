use flycam::angles::{clamp_pitch, wrap_turn, FULL_TURN, LOOK_SENSITIVITY, QUARTER_TURN};
use flycam::controller::{
    apply_movement, look_update, no_input, tick, ActionInput, CameraPose, PlayerState,
    PointerDelta, BASIS_ONE, MOVE_SPEED, POS_SCALE, UP_SPEED,
};
use flycam::input_map::{bound_key, cursor_after_input, Action, BoundKey, CursorMode, GrabMode};
use flycam::vec3::Vec3i;

fn level_forward() -> Vec3i {
    Vec3i { x: 0, y: 0, z: -BASIS_ONE }
}

fn level_left() -> Vec3i {
    Vec3i { x: -BASIS_ONE, y: 0, z: 0 }
}

#[test]
fn idle_tick_keeps_pose() {
    let mut state = PlayerState::new();
    let mut pose = CameraPose::initial();
    let before_state = state;
    let before_pose = pose;
    tick(
        &mut state,
        &mut pose,
        PointerDelta { dx: 0, dy: 0 },
        no_input(),
        level_forward(),
        level_left(),
        16,
    );
    assert_eq!(state, before_state);
    assert_eq!(pose, before_pose);
}

#[test]
fn jump_and_crouch_cancel() {
    let mut pose = CameraPose::initial();
    let y_before = pose.position.y;
    let both = ActionInput { jump: true, crouch: true, ..no_input() };
    apply_movement(&mut pose, both, level_forward(), level_left(), 1000);
    assert_eq!(pose.position.y, y_before);
}

#[test]
fn jump_alone_rises_at_up_speed() {
    let mut pose = CameraPose::initial();
    let y_before = pose.position.y;
    let jump = ActionInput { jump: true, ..no_input() };
    apply_movement(&mut pose, jump, level_forward(), level_left(), 1000);
    assert_eq!(pose.position.y, y_before + UP_SPEED * BASIS_ONE * 1000);
}

#[test]
fn forward_moves_at_move_speed() {
    let mut pose = CameraPose::initial();
    let z_before = pose.position.z;
    let forward = ActionInput { forward: true, ..no_input() };
    apply_movement(&mut pose, forward, level_forward(), level_left(), 500);
    assert_eq!(pose.position.z, z_before - MOVE_SPEED * BASIS_ONE * 500);
    assert_eq!(pose.position.x, -2 * POS_SCALE);
    assert_eq!(pose.position.y, 163840000);
}

#[test]
fn strafe_moves_along_left_vector() {
    let mut pose = CameraPose::initial();
    let x_before = pose.position.x;
    let left = ActionInput { left: true, ..no_input() };
    apply_movement(&mut pose, left, level_forward(), level_left(), 250);
    assert_eq!(pose.position.x, x_before - MOVE_SPEED * BASIS_ONE * 250);
    let right = ActionInput { right: true, ..no_input() };
    apply_movement(&mut pose, right, level_forward(), level_left(), 250);
    assert_eq!(pose.position.x, x_before);
}

#[test]
fn opposed_walk_flags_cancel() {
    let mut pose = CameraPose::initial();
    let before = pose;
    let both = ActionInput { forward: true, backward: true, ..no_input() };
    apply_movement(&mut pose, both, level_forward(), level_left(), 1000);
    assert_eq!(pose, before);
}

#[test]
fn movement_ignores_vertical_of_forward() {
    let mut pose = CameraPose::initial();
    let y_before = pose.position.y;
    let tilted = Vec3i { x: 0, y: BASIS_ONE, z: -BASIS_ONE };
    let forward = ActionInput { forward: true, ..no_input() };
    apply_movement(&mut pose, forward, tilted, level_left(), 1000);
    assert_eq!(pose.position.y, y_before);
}

#[test]
fn pitch_clamps_at_quarter_turn() {
    let mut state = PlayerState::new();
    let mut pose = CameraPose::initial();
    look_update(&mut state, &mut pose, PointerDelta { dx: 0, dy: -6283 });
    assert_eq!(state.pitch, QUARTER_TURN);
    look_update(&mut state, &mut pose, PointerDelta { dx: 0, dy: 6283 });
    look_update(&mut state, &mut pose, PointerDelta { dx: 0, dy: 6283 });
    assert_eq!(state.pitch, -QUARTER_TURN);
    assert_eq!(pose.pitch, -QUARTER_TURN);
}

#[test]
fn pitch_follows_sensitivity_exactly() {
    let mut state = PlayerState::new();
    let mut pose = CameraPose::initial();
    look_update(&mut state, &mut pose, PointerDelta { dx: 0, dy: 7 });
    assert_eq!(state.pitch, -7 * LOOK_SENSITIVITY);
}

#[test]
fn yaw_wraps_into_one_turn() {
    let mut state = PlayerState::new();
    let mut pose = CameraPose::initial();
    look_update(&mut state, &mut pose, PointerDelta { dx: 2, dy: 0 });
    assert_eq!(state.yaw, FULL_TURN - 2 * LOOK_SENSITIVITY);
    assert_eq!(pose.yaw, state.yaw);
    look_update(&mut state, &mut pose, PointerDelta { dx: -2, dy: 0 });
    assert_eq!(state.yaw, 0);
}

#[test]
fn wrap_and_clamp_helpers() {
    assert_eq!(wrap_turn(-5), FULL_TURN - 5);
    assert_eq!(wrap_turn(FULL_TURN + 9), 9);
    assert_eq!(wrap_turn(123), 123);
    assert_eq!(clamp_pitch(i64::MAX / 4), QUARTER_TURN);
    assert_eq!(clamp_pitch(-(i64::MAX / 4)), -QUARTER_TURN);
    assert_eq!(clamp_pitch(-42), -42);
}

#[test]
fn look_keeps_position_and_move_keeps_angles() {
    let mut state = PlayerState::new();
    let mut pose = CameraPose::initial();
    let position_before = pose.position;
    look_update(&mut state, &mut pose, PointerDelta { dx: 11, dy: -3 });
    assert_eq!(pose.position, position_before);
    let yaw_before = pose.yaw;
    let pitch_before = pose.pitch;
    let forward = ActionInput { forward: true, ..no_input() };
    apply_movement(&mut pose, forward, level_forward(), level_left(), 16);
    assert_eq!(pose.yaw, yaw_before);
    assert_eq!(pose.pitch, pitch_before);
}

#[test]
fn initial_pose_matches_spawn() {
    let pose = CameraPose::initial();
    assert_eq!(pose.position, Vec3i { x: -2 * POS_SCALE, y: 163840000, z: 5 * POS_SCALE });
    assert_eq!(pose.yaw, 0);
    assert_eq!(pose.pitch, 0);
    let state = PlayerState::new();
    assert_eq!(state.yaw, 0);
    assert_eq!(state.pitch, 0);
}

#[test]
fn default_bindings() {
    assert_eq!(bound_key(Action::Forward), BoundKey::KeyW);
    assert_eq!(bound_key(Action::Backward), BoundKey::KeyS);
    assert_eq!(bound_key(Action::Left), BoundKey::KeyA);
    assert_eq!(bound_key(Action::Right), BoundKey::KeyD);
    assert_eq!(bound_key(Action::Jump), BoundKey::Space);
    assert_eq!(bound_key(Action::Crouch), BoundKey::ShiftLeft);
}

#[test]
fn cursor_click_locks_and_escape_wins() {
    let released = CursorMode { visible: true, grab: GrabMode::Released };
    let locked = CursorMode { visible: false, grab: GrabMode::Locked };
    assert_eq!(cursor_after_input(released, false, false), released);
    assert_eq!(cursor_after_input(released, true, false), locked);
    assert_eq!(cursor_after_input(locked, false, true), released);
    assert_eq!(cursor_after_input(locked, true, true), released);
    assert_eq!(cursor_after_input(locked, false, false), locked);
}
