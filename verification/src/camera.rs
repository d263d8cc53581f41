//! Which way the held keys push the camera.

use vstd::prelude::*;

verus! {

/// The directional keys that are held in a tick.
#[derive(Clone, Copy, Debug, PartialEq, Eq, Structural)]
pub struct PanKeys {
    pub left: bool,
    pub right: bool,
    pub up: bool,
    pub down: bool,
}

/// The push along one axis: one step forward, one step back, or none where
/// both keys or neither are held.
pub open spec fn push(forward: bool, back: bool) -> int {
    (if forward { 1int } else { 0int }) - (if back { 1int } else { 0int })
}

/// The direction in which the held keys push the camera, one component for
/// each axis: `x` grows to the right and `y` grows upwards.
pub fn pan_direction(keys: PanKeys) -> (direction: (i8, i8))
    ensures
        direction.0 == push(keys.right, keys.left),
        direction.1 == push(keys.up, keys.down),
{
    let mut x: i8 = 0;
    let mut y: i8 = 0;
    if keys.left {
        x -= 1;
    }
    if keys.right {
        x += 1;
    }
    if keys.up {
        y += 1;
    }
    if keys.down {
        y -= 1;
    }
    (x, y)
}

} // verus!
