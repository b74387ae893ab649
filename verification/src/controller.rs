//! The free-fly camera controller.
//!
//! Each simulation tick consumes one accumulated pointer delta and the six
//! discrete action flags, updates the look angles (yaw folded into one
//! revolution, pitch clamped to a quarter turn), and moves the camera along
//! the horizontal projections of the previous frame's forward and left
//! vectors plus the world vertical.
//!
//! Direction vectors are fixed-point: a unit component is `BASIS_ONE`.
//! Positions are fixed-point too: one world unit is `POS_SCALE` position
//! units, so a speed in world units per second times a tick length in
//! milliseconds times a `BASIS_ONE`-scaled direction lands directly in
//! position units.

use vstd::prelude::*;

use crate::angles::FULL_TURN;
use crate::angles::LOOK_SENSITIVITY;
use crate::angles::POINTER_LIMIT;
use crate::angles::QUARTER_TURN;
use crate::angles::clamp_pitch;
use crate::angles::clamped_pitch;
use crate::angles::next_pitch;
use crate::angles::next_yaw;
use crate::angles::wrap_turn;
use crate::vec3::Vec3i;

verus! {

/// Horizontal movement speed, in world units per second.
pub const MOVE_SPEED: i64 = 4;

/// Vertical (jump / crouch) movement speed, in world units per second.
pub const UP_SPEED: i64 = 3;

/// The fixed-point value of a unit direction component.
pub const BASIS_ONE: i64 = 65536;

/// Longest tick a movement update accepts, in milliseconds.
pub const DT_LIMIT: i64 = 1000;

/// Position units in one world unit: a full-second step at unit speed along
/// a unit direction.
pub const POS_SCALE: i64 = BASIS_ONE * 1000;

/// Largest magnitude of a single movement contribution along one axis:
/// full speed, a whole second, a unit component.
pub const STEP_LIMIT: i64 = 4 * 65536 * 1000;

/// Positions whose components stay within this bound can absorb any one
/// tick's displacement without overflowing.
pub const POS_LIMIT: i64 = 0x100_0000_0000_0000;

/// The look state owned by the player entity: the two Euler angles.
#[derive(Clone, Copy, PartialEq, Eq, Structural, Debug)]
#[verifier::ext_equal]
pub struct PlayerState {
    /// Heading, normalised to `[0, FULL_TURN)`.
    pub yaw: i64,
    /// Elevation, clamped to `[-QUARTER_TURN, QUARTER_TURN]`.
    pub pitch: i64,
}

/// The camera pose written each tick: a fixed-point position and the two
/// angles the renderer turns into an orientation.
#[derive(Clone, Copy, PartialEq, Eq, Structural, Debug)]
#[verifier::ext_equal]
pub struct CameraPose {
    pub position: Vec3i,
    pub yaw: i64,
    pub pitch: i64,
}

/// The six discrete action flags read each tick.
#[derive(Clone, Copy, PartialEq, Eq, Structural, Debug)]
#[verifier::ext_equal]
pub struct ActionInput {
    pub forward: bool,
    pub backward: bool,
    pub left: bool,
    pub right: bool,
    pub jump: bool,
    pub crouch: bool,
}

/// The pointer motion accumulated over one tick, in pointer counts.
#[derive(Clone, Copy, PartialEq, Eq, Structural, Debug)]
#[verifier::ext_equal]
pub struct PointerDelta {
    pub dx: i64,
    pub dy: i64,
}

impl PlayerState {
    /// The look state is well formed when both angles are in their ranges.
    pub open spec fn wf(self) -> bool {
        &&& 0 <= self.yaw < FULL_TURN
        &&& -QUARTER_TURN <= self.pitch <= QUARTER_TURN
    }

    /// A player starts looking straight ahead.
    pub fn new() -> (s: PlayerState)
        ensures
            s.yaw == 0,
            s.pitch == 0,
            s.wf(),
    {
        PlayerState { yaw: 0, pitch: 0 }
    }
}

impl CameraPose {
    /// Where the demo camera starts: two world units back along x, two and
    /// a half up, five forward along z, looking level. The look state owns
    /// the orientation, so the angles start at its level defaults.
    pub fn initial() -> (p: CameraPose)
        ensures
            p.position.x == -2 * POS_SCALE,
            p.position.y == 163840000,
            p.position.z == 5 * POS_SCALE,
            p.yaw == 0,
            p.pitch == 0,
            within_pos_limit(p.position),
    {
        CameraPose {
            position: Vec3i { x: -2 * POS_SCALE, y: 163840000, z: 5 * POS_SCALE },
            yaw: 0,
            pitch: 0,
        }
    }
}

/// A direction vector whose components do not exceed one unit; the
/// horizontal projections handed to the movement step satisfy this.
pub open spec fn in_unit_box(v: Vec3i) -> bool {
    &&& -BASIS_ONE <= v.x <= BASIS_ONE
    &&& -BASIS_ONE <= v.y <= BASIS_ONE
    &&& -BASIS_ONE <= v.z <= BASIS_ONE
}

/// A position every component of which is within `POS_LIMIT`.
pub open spec fn within_pos_limit(v: Vec3i) -> bool {
    &&& -POS_LIMIT <= v.x <= POS_LIMIT
    &&& -POS_LIMIT <= v.y <= POS_LIMIT
    &&& -POS_LIMIT <= v.z <= POS_LIMIT
}

/// The sign of an opposed pair of action flags: +1, -1, or 0 when both or
/// neither is pressed.
pub open spec fn axis_value(pos: bool, neg: bool) -> int {
    (if pos {
        1int
    } else {
        0int
    }) - (if neg {
        1int
    } else {
        0int
    })
}

/// One tick's displacement along the world x axis: the forward/backward
/// pair along the forward vector plus the left/right pair along the left
/// vector, each at `MOVE_SPEED`.
pub open spec fn move_delta_x(input: ActionInput, forward: Vec3i, left: Vec3i, dt: int) -> int {
    axis_value(input.forward, input.backward) * MOVE_SPEED * forward.x * dt + axis_value(
        input.left,
        input.right,
    ) * MOVE_SPEED * left.x * dt
}

/// One tick's vertical displacement: only the jump/crouch pair moves the
/// camera vertically, at `UP_SPEED` along the world up axis; the forward
/// and left directions are used with their vertical component zeroed.
pub open spec fn move_delta_y(input: ActionInput, dt: int) -> int {
    axis_value(input.jump, input.crouch) * UP_SPEED * BASIS_ONE * dt
}

/// One tick's displacement along the world z axis.
pub open spec fn move_delta_z(input: ActionInput, forward: Vec3i, left: Vec3i, dt: int) -> int {
    axis_value(input.forward, input.backward) * MOVE_SPEED * forward.z * dt + axis_value(
        input.left,
        input.right,
    ) * MOVE_SPEED * left.z * dt
}

/// The position after one movement step.
pub open spec fn moved(p: Vec3i, input: ActionInput, forward: Vec3i, left: Vec3i, dt: int) -> Vec3i {
    Vec3i {
        x: (p.x + move_delta_x(input, forward, left, dt)) as i64,
        y: (p.y + move_delta_y(input, dt)) as i64,
        z: (p.z + move_delta_z(input, forward, left, dt)) as i64,
    }
}

/// The look state after one pointer update: both scaled deltas are
/// subtracted, yaw is folded into one revolution, pitch is clamped.
pub open spec fn look_step(s: PlayerState, dx: int, dy: int) -> PlayerState {
    PlayerState {
        yaw: next_yaw(s.yaw as int, dx) as i64,
        pitch: next_pitch(s.pitch as int, dy) as i64,
    }
}

/// The whole tick: the look state advances by the pointer delta, and the
/// pose takes the new angles and the moved position. The forward and left
/// vectors are the previous frame's, as the movement step reads the pose
/// before the look update is applied to it.
pub open spec fn tick_spec(
    state: PlayerState,
    pose: CameraPose,
    delta: PointerDelta,
    input: ActionInput,
    forward: Vec3i,
    left: Vec3i,
    dt: int,
) -> (PlayerState, CameraPose) {
    let s2 = look_step(state, delta.dx as int, delta.dy as int);
    let p2 = CameraPose {
        position: moved(pose.position, input, forward, left, dt),
        yaw: s2.yaw,
        pitch: s2.pitch,
    };
    (s2, p2)
}

/// The sign of an opposed pair of action flags, as a runtime value.
fn axis_of(pos: bool, neg: bool) -> (r: i64)
    ensures
        r == axis_value(pos, neg),
        -1 <= r <= 1,
{
    let p: i64 = if pos {
        1
    } else {
        0
    };
    let n: i64 = if neg {
        1
    } else {
        0
    };
    p - n
}

/// One bounded movement contribution: sign times speed times direction
/// component times tick length.
fn scaled_step(axis: i64, speed: i64, comp: i64, dt: i64) -> (r: i64)
    requires
        -1 <= axis <= 1,
        0 <= speed <= MOVE_SPEED,
        -BASIS_ONE <= comp <= BASIS_ONE,
        0 <= dt <= DT_LIMIT,
    ensures
        r == axis * speed * comp * dt,
        -STEP_LIMIT <= r <= STEP_LIMIT,
{
    proof {
        assert(-4 <= axis * speed <= 4) by (nonlinear_arith)
            requires
                -1 <= axis <= 1,
                0 <= speed <= 4,
        ;
        assert(-262144 <= axis * speed * comp <= 262144) by (nonlinear_arith)
            requires
                -4 <= axis * speed <= 4,
                -65536 <= comp <= 65536,
        ;
        assert(-262144000 <= axis * speed * comp * dt <= 262144000) by (nonlinear_arith)
            requires
                -262144 <= axis * speed * comp <= 262144,
                0 <= dt <= 1000,
        ;
    }
    axis * speed * comp * dt
}

/// Applies one tick of discrete movement to the camera pose, leaving the
/// orientation angles alone. `forward` and `left` are the camera's forward
/// and left directions with the vertical component zeroed, in `BASIS_ONE`
/// fixed point; `dt` is the tick length in milliseconds.
pub fn apply_movement(pose: &mut CameraPose, input: ActionInput, forward: Vec3i, left: Vec3i, dt: i64)
    requires
        in_unit_box(forward),
        in_unit_box(left),
        0 <= dt <= DT_LIMIT,
        within_pos_limit(old(pose).position),
    ensures
        final(pose).position == moved(old(pose).position, input, forward, left, dt as int),
        final(pose).yaw == old(pose).yaw,
        final(pose).pitch == old(pose).pitch,
{
    let walk = axis_of(input.forward, input.backward);
    let strafe = axis_of(input.left, input.right);
    let fly = axis_of(input.jump, input.crouch);

    let dx = scaled_step(walk, MOVE_SPEED, forward.x, dt) + scaled_step(strafe, MOVE_SPEED, left.x, dt);
    let dy = scaled_step(fly, UP_SPEED, BASIS_ONE, dt);
    let dz = scaled_step(walk, MOVE_SPEED, forward.z, dt) + scaled_step(strafe, MOVE_SPEED, left.z, dt);

    pose.position.x = pose.position.x + dx;
    pose.position.y = pose.position.y + dy;
    pose.position.z = pose.position.z + dz;
}

/// Applies one tick of pointer motion to the look state and mirrors the new
/// angles into the camera pose, leaving the position alone.
pub fn look_update(state: &mut PlayerState, pose: &mut CameraPose, delta: PointerDelta)
    requires
        old(state).wf(),
        -POINTER_LIMIT <= delta.dx <= POINTER_LIMIT,
        -POINTER_LIMIT <= delta.dy <= POINTER_LIMIT,
    ensures
        *final(state) == look_step(*old(state), delta.dx as int, delta.dy as int),
        final(state).wf(),
        final(pose).yaw == final(state).yaw,
        final(pose).pitch == final(state).pitch,
        final(pose).position == old(pose).position,
{
    let raw_yaw = state.yaw - delta.dx * LOOK_SENSITIVITY;
    state.yaw = wrap_turn(raw_yaw);
    let raw_pitch = state.pitch - delta.dy * LOOK_SENSITIVITY;
    state.pitch = clamp_pitch(raw_pitch);
    pose.yaw = state.yaw;
    pose.pitch = state.pitch;
}

/// One whole simulation tick: look update, then discrete movement along the
/// previous frame's (flattened) forward and left directions.
pub fn tick(
    state: &mut PlayerState,
    pose: &mut CameraPose,
    delta: PointerDelta,
    input: ActionInput,
    forward: Vec3i,
    left: Vec3i,
    dt: i64,
)
    requires
        old(state).wf(),
        -POINTER_LIMIT <= delta.dx <= POINTER_LIMIT,
        -POINTER_LIMIT <= delta.dy <= POINTER_LIMIT,
        in_unit_box(forward),
        in_unit_box(left),
        0 <= dt <= DT_LIMIT,
        within_pos_limit(old(pose).position),
    ensures
        *final(state) == tick_spec(*old(state), *old(pose), delta, input, forward, left, dt as int).0,
        *final(pose) == tick_spec(*old(state), *old(pose), delta, input, forward, left, dt as int).1,
        final(state).wf(),
{
    look_update(state, pose, delta);
    apply_movement(pose, input, forward, left, dt);
}

/// The input of a tick in which no action is pressed.
pub open spec fn idle_input() -> ActionInput {
    ActionInput { forward: false, backward: false, left: false, right: false, jump: false, crouch: false }
}

/// The pointer delta of a tick in which the pointer did not move.
pub open spec fn zero_delta() -> PointerDelta {
    PointerDelta { dx: 0, dy: 0 }
}

/// No pressed action, as a runtime value.
pub fn no_input() -> (input: ActionInput)
    ensures
        input == idle_input(),
{
    ActionInput { forward: false, backward: false, left: false, right: false, jump: false, crouch: false }
}

/// A product whose leftmost factor is zero is zero, in the shape the
/// movement deltas take.
proof fn lemma_mul_zero_left(a: int, b: int, c: int)
    ensures
        0 * a * b * c == 0,
{
    assert(0 * a * b * c == 0) by (nonlinear_arith);
}

/// Law: a tick with no pressed action and no pointer motion leaves both the
/// look state and the camera pose exactly as they were.
pub proof fn lemma_idle_tick_keeps_pose(
    state: PlayerState,
    pose: CameraPose,
    forward: Vec3i,
    left: Vec3i,
    dt: int,
)
    requires
        state.wf(),
        pose.yaw == state.yaw,
        pose.pitch == state.pitch,
    ensures
        tick_spec(state, pose, zero_delta(), idle_input(), forward, left, dt).0 == state,
        tick_spec(state, pose, zero_delta(), idle_input(), forward, left, dt).1 == pose,
{
    assert(look_step(state, 0, 0) =~= state);
    assert(axis_value(false, false) == 0);
    lemma_mul_zero_left(MOVE_SPEED as int, forward.x as int, dt);
    lemma_mul_zero_left(MOVE_SPEED as int, left.x as int, dt);
    lemma_mul_zero_left(MOVE_SPEED as int, forward.z as int, dt);
    lemma_mul_zero_left(MOVE_SPEED as int, left.z as int, dt);
    lemma_mul_zero_left(UP_SPEED as int, BASIS_ONE as int, dt);
    assert(moved(pose.position, idle_input(), forward, left, dt) =~= pose.position);
    assert(tick_spec(state, pose, zero_delta(), idle_input(), forward, left, dt).1 =~= pose);
}

/// Law: holding Jump and Crouch in the same tick cancels exactly: because
/// both use the same vertical speed, the vertical position after the
/// movement step is unchanged.
pub proof fn lemma_jump_crouch_cancels(
    position: Vec3i,
    input: ActionInput,
    forward: Vec3i,
    left: Vec3i,
    dt: int,
)
    requires
        input.jump,
        input.crouch,
    ensures
        moved(position, input, forward, left, dt).y == position.y,
{
    assert(axis_value(input.jump, input.crouch) == 0);
    lemma_mul_zero_left(UP_SPEED as int, BASIS_ONE as int, dt);
}

} // verus!
