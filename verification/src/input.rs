//! Per-frame key state and the local-space movement direction it selects.
//!
//! Forward/back map to the camera's local -Z/+Z, left/right to local
//! -X/+X, and the two vertical keys to world -Y/+Y directly (the vertical
//! axis is never rotated). Each axis component is the difference of its
//! two keys, so it lies in {-1, 0, 1} and opposing keys cancel.

use vstd::prelude::*;

verus! {

/// The movement-relevant keys held during one frame.
#[derive(Clone, Copy, Debug, PartialEq, Eq, Structural)]
pub struct HeldKeys {
    /// W: move toward local -Z.
    pub forward: bool,
    /// S: move toward local +Z.
    pub back: bool,
    /// A: move toward local -X.
    pub left: bool,
    /// D: move toward local +X.
    pub right: bool,
    /// E: move toward world +Y.
    pub up: bool,
    /// Q: move toward world -Y.
    pub down: bool,
    /// Either shift key: double the movement speed.
    pub shift: bool,
}

/// A movement direction in the camera's frame, each component in
/// {-1, 0, 1}: `x` along local X, `z` along local Z, and `y` along world Y.
#[derive(Clone, Copy, Debug, PartialEq, Eq, Structural)]
pub struct LocalDirection {
    pub x: i64,
    pub y: i64,
    pub z: i64,
}

/// The signed contribution of one key pair: +1 for the positive key,
/// -1 for the negative key, 0 for neither or both.
pub open spec fn spec_axis(positive: bool, negative: bool) -> int {
    (if positive {
        1int
    } else {
        0int
    }) - (if negative {
        1int
    } else {
        0int
    })
}

/// The local X component selected by the held keys.
pub open spec fn spec_direction_x(keys: HeldKeys) -> int {
    spec_axis(keys.right, keys.left)
}

/// The world Y component selected by the held keys.
pub open spec fn spec_direction_y(keys: HeldKeys) -> int {
    spec_axis(keys.up, keys.down)
}

/// The local Z component selected by the held keys (back is +Z, so a held
/// forward key gives -1).
pub open spec fn spec_direction_z(keys: HeldKeys) -> int {
    spec_axis(keys.back, keys.forward)
}

/// Build the local-space movement direction from the held keys.
pub fn local_direction(keys: &HeldKeys) -> (d: LocalDirection)
    ensures
        d.x == spec_direction_x(*keys),
        d.y == spec_direction_y(*keys),
        d.z == spec_direction_z(*keys),
{
    let x: i64 = (if keys.right {
        1i64
    } else {
        0i64
    }) - (if keys.left {
        1i64
    } else {
        0i64
    });
    let y: i64 = (if keys.up {
        1i64
    } else {
        0i64
    }) - (if keys.down {
        1i64
    } else {
        0i64
    });
    let z: i64 = (if keys.back {
        1i64
    } else {
        0i64
    }) - (if keys.forward {
        1i64
    } else {
        0i64
    });
    LocalDirection { x, y, z }
}

/// Pressing the two opposing keys of an axis in the same frame cancels
/// that axis component to zero.
pub proof fn lemma_opposing_keys_cancel(keys: HeldKeys)
    ensures
        keys.forward && keys.back ==> spec_direction_z(keys) == 0,
        keys.left && keys.right ==> spec_direction_x(keys) == 0,
        keys.up && keys.down ==> spec_direction_y(keys) == 0,
{
}

/// Every direction component lies in {-1, 0, 1}.
pub proof fn lemma_direction_components_bounded(keys: HeldKeys)
    ensures
        -1 <= spec_direction_x(keys) <= 1,
        -1 <= spec_direction_y(keys) <= 1,
        -1 <= spec_direction_z(keys) <= 1,
{
}

} // verus!
