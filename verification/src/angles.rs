//! Binary angles and the look-angle rules.
//!
//! An angle is an `i64` number of units, `FULL_TURN` units to one revolution,
//! so a quarter turn (a right angle) is exact. Yaw is kept normalised to
//! `[0, FULL_TURN)`; pitch is clamped to `[-QUARTER_TURN, QUARTER_TURN]`.

use vstd::prelude::*;

verus! {

/// Angle units in one full revolution.
pub const FULL_TURN: i64 = 0x1_0000_0000;

/// Angle units in a quarter revolution: the pitch limit, a right angle.
pub const QUARTER_TURN: i64 = 0x4000_0000;

/// Angle units added to the look angles per pointer count
/// (about a milliradian per count).
pub const LOOK_SENSITIVITY: i64 = 683565;

/// Largest pointer delta magnitude a single look update accepts; it keeps
/// `delta * LOOK_SENSITIVITY` strictly inside one revolution.
pub const POINTER_LIMIT: i64 = 6283;

/// An angle folded back into `[0, FULL_TURN)`, for angles that start at most
/// one revolution outside that range.
pub open spec fn norm_turn(a: int) -> int {
    if a < 0 {
        a + FULL_TURN
    } else if a >= FULL_TURN {
        a - FULL_TURN
    } else {
        a
    }
}

/// A pitch angle clamped to `[-QUARTER_TURN, QUARTER_TURN]`.
pub open spec fn clamped_pitch(p: int) -> int {
    if p < -QUARTER_TURN {
        -QUARTER_TURN as int
    } else if p > QUARTER_TURN {
        QUARTER_TURN as int
    } else {
        p
    }
}

/// The yaw angle after one pointer update: the scaled delta is subtracted
/// and the result is folded back into `[0, FULL_TURN)`.
pub open spec fn next_yaw(yaw: int, dx: int) -> int {
    norm_turn(yaw - dx * LOOK_SENSITIVITY)
}

/// The pitch angle after one pointer update: the scaled delta is subtracted
/// and the result is clamped to a quarter turn either way.
pub open spec fn next_pitch(pitch: int, dy: int) -> int {
    clamped_pitch(pitch - dy * LOOK_SENSITIVITY)
}

/// Folds an angle at most one revolution out of range back into
/// `[0, FULL_TURN)`.
pub fn wrap_turn(a: i64) -> (r: i64)
    requires
        -FULL_TURN < a < 2 * FULL_TURN,
    ensures
        r == norm_turn(a as int),
        0 <= r < FULL_TURN,
{
    if a < 0 {
        a + FULL_TURN
    } else if a >= FULL_TURN {
        a - FULL_TURN
    } else {
        a
    }
}

/// Clamps a pitch angle to `[-QUARTER_TURN, QUARTER_TURN]`.
pub fn clamp_pitch(p: i64) -> (r: i64)
    ensures
        r == clamped_pitch(p as int),
        -QUARTER_TURN <= r <= QUARTER_TURN,
{
    if p < -QUARTER_TURN {
        -QUARTER_TURN
    } else if p > QUARTER_TURN {
        QUARTER_TURN
    } else {
        p
    }
}

/// The pitch reached by applying a whole sequence of pointer deltas in
/// order, clamping after each step.
pub open spec fn pitch_after(pitch: int, deltas: Seq<int>) -> int
    decreases deltas.len(),
{
    if deltas.len() == 0 {
        pitch
    } else {
        pitch_after(next_pitch(pitch, deltas[0]), deltas.drop_first())
    }
}

/// Law: whatever sequence of pointer updates is applied to an in-range
/// pitch, the resulting pitch stays within a quarter turn of level.
pub proof fn lemma_pitch_stays_in_range(pitch: int, deltas: Seq<int>)
    requires
        -QUARTER_TURN <= pitch <= QUARTER_TURN,
    ensures
        -QUARTER_TURN <= pitch_after(pitch, deltas) <= QUARTER_TURN,
    decreases deltas.len(),
{
    if deltas.len() > 0 {
        lemma_pitch_stays_in_range(next_pitch(pitch, deltas[0]), deltas.drop_first());
    }
}

} // verus!
