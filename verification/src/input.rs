//! What the keys ask for: a change of the player's velocity, and the
//! switch of the debug panel.

use crate::vector::FixedVec3;
use crate::vector::UNIT;
use vstd::prelude::*;

verus! {

/// The steering keys that are down in one tick.
#[derive(Clone, Copy, Debug, PartialEq, Eq, Structural)]
pub struct SteeringKeys {
    pub left: bool,
    pub right: bool,
    pub up: bool,
    pub down: bool,
    pub jump: bool,
}

/// One unit if the key is down, nothing if it is not.
pub open spec fn push(down: bool) -> int {
    if down {
        UNIT as int
    } else {
        0
    }
}

/// The change that the keys ask of the player's velocity in one tick: one
/// unit along x to the right and one back to the left, one unit along z
/// downward and one back upward, and two units up along y for a jump. Keys
/// that pull against each other cancel.
pub open spec fn steering_spec(keys: SteeringKeys) -> FixedVec3 {
    FixedVec3 {
        x: (push(keys.right) - push(keys.left)) as i64,
        y: (2 * push(keys.jump)) as i64,
        z: (push(keys.down) - push(keys.up)) as i64,
    }
}

/// The change that the keys ask of the player's velocity in one tick.
pub fn steering(keys: SteeringKeys) -> (change: FixedVec3)
    ensures
        change == steering_spec(keys),
{
    let mut change = FixedVec3 { x: 0, y: 0, z: 0 };
    if keys.left {
        change.x = change.x - UNIT;
    }
    if keys.right {
        change.x = change.x + UNIT;
    }
    if keys.up {
        change.z = change.z - UNIT;
    }
    if keys.down {
        change.z = change.z + UNIT;
    }
    if keys.jump {
        change.y = change.y + 2 * UNIT;
    }
    change
}

/// Whether the debug panel shows after a tick: it switches when the `P`
/// key is let go while shift is held, and else stays as it is.
pub fn debug_panel_shows(shows: bool, shift_held: bool, p_released: bool) -> (after: bool)
    ensures
        after == (shows != (shift_held && p_released)),
{
    if shift_held && p_released {
        !shows
    } else {
        shows
    }
}

} // verus!
