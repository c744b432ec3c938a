//! The camera controller's per-frame decisions: which movement impulses
//! apply, at what speed, and what happens to the cursor. The vector and
//! matrix arithmetic that carries them out is left to the caller.
use vstd::prelude::*;

verus! {

/// Movement speed, in world units per second, without the modifier held.
pub const BASE_SPEED: u32 = 10;

/// Movement speed while the speed modifier is held: twice the base speed.
pub const BOOST_SPEED: u32 = 20;

/// The two states of mouse tracking.
#[derive(Clone, Copy, Debug, PartialEq, Eq, Structural)]
pub enum CursorMode {
    /// No cursor sample has been taken yet.
    Uninitialized,
    /// Steady state: relative cursor motion turns the camera.
    Tracking,
}

/// Which of the eight logical actions are held down this frame.
#[derive(Clone, Copy, Debug, PartialEq, Eq, Structural)]
pub struct KeyState {
    pub forward: bool,
    pub back: bool,
    pub left: bool,
    pub right: bool,
    pub up: bool,
    pub down: bool,
    pub boost: bool,
    pub wireframe: bool,
}

/// What the camera does this frame.
#[derive(Clone, Copy, Debug, PartialEq, Eq, Structural)]
pub struct FramePlan {
    /// Steps along the look direction: 1 forward, -1 back, 0 for neither or both.
    pub forward: i8,
    /// Steps along the normalized cross of look direction and world-up: 1 right, -1 left.
    pub right: i8,
    /// Steps along world-up: 1 up, -1 down.
    pub up: i8,
    /// Speed for this frame's steps, in world units per second.
    pub speed: u32,
    /// Draw polygons as outlines this frame.
    pub wireframe: bool,
    /// Move the cursor to the viewport centre before reading motion.
    pub recenter_cursor: bool,
    /// Apply this frame's relative cursor motion as pitch and yaw.
    pub apply_mouse_look: bool,
    /// Mode for the next frame.
    pub next_mode: CursorMode,
}

/// Net impulse along one axis from the key that pushes it positive and the
/// key that pushes it negative.
pub open spec fn net_axis(positive: bool, negative: bool) -> int {
    (if positive { 1int } else { 0int }) - (if negative { 1int } else { 0int })
}

/// Speed chosen by the modifier key.
pub open spec fn speed_for(boost: bool) -> int {
    if boost {
        BOOST_SPEED as int
    } else {
        BASE_SPEED as int
    }
}

/// Net impulse along one axis: `1`, `-1`, or `0` when both or neither key is held.
pub fn net_direction(positive: bool, negative: bool) -> (r: i8)
    ensures
        r == net_axis(positive, negative),
        -1 <= r <= 1,
{
    let p: i8 = if positive { 1 } else { 0 };
    let n: i8 = if negative { 1 } else { 0 };
    p - n
}

/// Movement speed for a frame: doubled while the modifier is held.
pub fn movement_speed(boost: bool) -> (r: u32)
    ensures
        r == speed_for(boost),
        r == if boost { 2 * BASE_SPEED as int } else { BASE_SPEED as int },
{
    if boost {
        BOOST_SPEED
    } else {
        BASE_SPEED
    }
}

/// Decides one frame of camera control from the cursor mode and the held keys.
/// The first frame recentres the cursor and turns nothing; every later frame
/// applies the cursor motion.
pub fn plan_frame(mode: CursorMode, keys: &KeyState) -> (p: FramePlan)
    ensures
        p.forward == net_axis(keys.forward, keys.back),
        p.right == net_axis(keys.right, keys.left),
        p.up == net_axis(keys.up, keys.down),
        p.speed == speed_for(keys.boost),
        p.wireframe == keys.wireframe,
        p.recenter_cursor == (mode == CursorMode::Uninitialized),
        p.apply_mouse_look == (mode == CursorMode::Tracking),
        p.next_mode == CursorMode::Tracking,
{
    let first = match mode {
        CursorMode::Uninitialized => true,
        CursorMode::Tracking => false,
    };
    FramePlan {
        forward: net_direction(keys.forward, keys.back),
        right: net_direction(keys.right, keys.left),
        up: net_direction(keys.up, keys.down),
        speed: movement_speed(keys.boost),
        wireframe: keys.wireframe,
        recenter_cursor: first,
        apply_mouse_look: !first,
        next_mode: CursorMode::Tracking,
    }
}

} // verus!
