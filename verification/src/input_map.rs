//! The discrete action set, its default key bindings, and the cursor-grab
//! decision rule.
//!
//! The host shell feeds raw key and mouse state through its input-mapping
//! layer; what is authored here is only the data and the decisions: which
//! key drives which action, and how a click or the escape key changes the
//! cursor mode.

use vstd::prelude::*;

verus! {

/// The six discrete actions a player can hold.
#[derive(Clone, Copy, PartialEq, Eq, Structural, Debug)]
pub enum Action {
    Forward,
    Backward,
    Left,
    Right,
    Jump,
    Crouch,
}

/// The keys the demo binds, named for the host's keyboard codes.
#[derive(Clone, Copy, PartialEq, Eq, Structural, Debug)]
pub enum BoundKey {
    KeyW,
    KeyA,
    KeyS,
    KeyD,
    Space,
    ShiftLeft,
}

/// The default binding: W/S forward/backward, A/D left/right, Space jumps,
/// left Shift crouches.
pub open spec fn default_binding(action: Action) -> BoundKey {
    match action {
        Action::Forward => BoundKey::KeyW,
        Action::Backward => BoundKey::KeyS,
        Action::Left => BoundKey::KeyA,
        Action::Right => BoundKey::KeyD,
        Action::Jump => BoundKey::Space,
        Action::Crouch => BoundKey::ShiftLeft,
    }
}

/// The key that drives an action under the default binding.
pub fn bound_key(action: Action) -> (k: BoundKey)
    ensures
        k == default_binding(action),
{
    match action {
        Action::Forward => BoundKey::KeyW,
        Action::Backward => BoundKey::KeyS,
        Action::Left => BoundKey::KeyA,
        Action::Right => BoundKey::KeyD,
        Action::Jump => BoundKey::Space,
        Action::Crouch => BoundKey::ShiftLeft,
    }
}

/// Whether the window holds the cursor captive.
#[derive(Clone, Copy, PartialEq, Eq, Structural, Debug)]
pub enum GrabMode {
    Locked,
    Released,
}

/// The cursor's visibility and capture state.
#[derive(Clone, Copy, PartialEq, Eq, Structural, Debug)]
#[verifier::ext_equal]
pub struct CursorMode {
    pub visible: bool,
    pub grab: GrabMode,
}

/// The cursor mode after one frame of input: a left click hides and locks
/// the cursor, the escape key shows and releases it, and when both arrive
/// in the same frame the escape key is applied last and wins.
pub open spec fn cursor_step(mode: CursorMode, left_click: bool, escape: bool) -> CursorMode {
    let clicked = if left_click {
        CursorMode { visible: false, grab: GrabMode::Locked }
    } else {
        mode
    };
    if escape {
        CursorMode { visible: true, grab: GrabMode::Released }
    } else {
        clicked
    }
}

/// Applies one frame of click / escape input to the cursor mode.
pub fn cursor_after_input(mode: CursorMode, left_click: bool, escape: bool) -> (m: CursorMode)
    ensures
        m == cursor_step(mode, left_click, escape),
{
    let mut next = mode;
    if left_click {
        next = CursorMode { visible: false, grab: GrabMode::Locked };
    }
    if escape {
        next = CursorMode { visible: true, grab: GrabMode::Released };
    }
    next
}

} // verus!
