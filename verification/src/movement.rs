//! The per-frame movement update.
//!
//! The held keys select a direction in the camera's frame; the
//! displacement for the frame is that direction scaled by the speed and
//! the elapsed time, component by component. The combined direction is
//! deliberately not normalized, so diagonal movement is faster than
//! movement along a single axis.
//!
//! Units: distances in micro-units, time in microseconds. The base speed
//! of 10 units per second is exactly 10 micro-units per microsecond, and
//! holding shift doubles it.

use vstd::prelude::*;
use crate::input::{
    HeldKeys, local_direction, spec_direction_x, spec_direction_y, spec_direction_z,
};

verus! {

/// Base movement speed: 10 units per second, i.e. 10 micro-units per
/// microsecond.
pub const BASE_SPEED: i64 = 10;

/// The longest frame the movement update accepts, chosen so that the
/// doubled speed times the elapsed time still fits in an `i64`
/// (about fourteen thousand years).
pub const MAX_FRAME_MICROS: u64 = 0x7fff_ffff_ffff_ffff / 20;

/// A frame's displacement in micro-units: `x` along the camera's local X
/// axis, `z` along its local Z axis (both taken in world space by the
/// host), and `y` along world Y directly.
#[derive(Clone, Copy, Debug, PartialEq, Eq, Structural)]
pub struct Displacement {
    pub x: i64,
    pub y: i64,
    pub z: i64,
}

/// The speed in micro-units per microsecond: the base speed, doubled
/// while shift is held.
pub open spec fn spec_speed(shift: bool) -> int {
    if shift {
        2 * (BASE_SPEED as int)
    } else {
        BASE_SPEED as int
    }
}

/// One axis of the frame's displacement: the axis component of the local
/// direction, times the speed, times the elapsed time.
pub open spec fn spec_axis_displacement(component: int, shift: bool, elapsed: int) -> int {
    component * spec_speed(shift) * elapsed
}

/// The local X displacement selected by the held keys over `elapsed`
/// microseconds.
pub open spec fn spec_displacement_x(keys: HeldKeys, elapsed: int) -> int {
    spec_axis_displacement(spec_direction_x(keys), keys.shift, elapsed)
}

/// The world Y displacement selected by the held keys over `elapsed`
/// microseconds.
pub open spec fn spec_displacement_y(keys: HeldKeys, elapsed: int) -> int {
    spec_axis_displacement(spec_direction_y(keys), keys.shift, elapsed)
}

/// The local Z displacement selected by the held keys over `elapsed`
/// microseconds.
pub open spec fn spec_displacement_z(keys: HeldKeys, elapsed: int) -> int {
    spec_axis_displacement(spec_direction_z(keys), keys.shift, elapsed)
}

/// The movement speed for the frame.
pub fn speed(shift: bool) -> (s: i64)
    ensures
        s == spec_speed(shift),
{
    if shift {
        2 * BASE_SPEED
    } else {
        BASE_SPEED
    }
}

/// Compute the frame's displacement from the held keys and the elapsed
/// time. Zero key input gives zero displacement whatever the elapsed
/// time; opposing keys cancel their axis.
pub fn movement_displacement(keys: &HeldKeys, elapsed_micros: u64) -> (d: Displacement)
    requires
        elapsed_micros <= MAX_FRAME_MICROS,
    ensures
        d.x == spec_displacement_x(*keys, elapsed_micros as int),
        d.y == spec_displacement_y(*keys, elapsed_micros as int),
        d.z == spec_displacement_z(*keys, elapsed_micros as int),
{
    let dir = local_direction(keys);
    let dt: i64 = elapsed_micros as i64;
    let s: i64 = speed(keys.shift);
    proof {
        assert(0 <= (s as int) * (dt as int) <= 0x7fff_ffff_ffff_ffffint) by (nonlinear_arith)
            requires
                0 <= (s as int) <= 20,
                0 <= (dt as int) <= 0x7fff_ffff_ffff_ffffint / 20,
        ;
    }
    let step: i64 = s * dt;
    proof {
        lemma_axis_displacement_cases(spec_direction_x(*keys), keys.shift, dt as int, s as int, step as int);
        lemma_axis_displacement_cases(spec_direction_y(*keys), keys.shift, dt as int, s as int, step as int);
        lemma_axis_displacement_cases(spec_direction_z(*keys), keys.shift, dt as int, s as int, step as int);
    }
    let x: i64 = if dir.x == 1 {
        step
    } else if dir.x == -1 {
        -step
    } else {
        0
    };
    let y: i64 = if dir.y == 1 {
        step
    } else if dir.y == -1 {
        -step
    } else {
        0
    };
    let z: i64 = if dir.z == 1 {
        step
    } else if dir.z == -1 {
        -step
    } else {
        0
    };
    Displacement { x, y, z }
}

/// The squared magnitude of the frame's displacement, in squared
/// micro-units. The displacement's `x` and `z` axes are taken in world
/// space by a rotation, which preserves lengths, so this is also the
/// squared magnitude of the world-space displacement.
pub open spec fn spec_displacement_sq_magnitude(keys: HeldKeys, elapsed: int) -> int {
    spec_displacement_x(keys, elapsed) * spec_displacement_x(keys, elapsed)
        + spec_displacement_y(keys, elapsed) * spec_displacement_y(keys, elapsed)
        + spec_displacement_z(keys, elapsed) * spec_displacement_z(keys, elapsed)
}

/// Displacement is additive in elapsed time: one frame of `t1 + t2`
/// microseconds displaces exactly as far as a frame of `t1` followed by a
/// frame of `t2` with the same keys held.
pub proof fn lemma_displacement_additive_in_time(keys: HeldKeys, t1: int, t2: int)
    ensures
        spec_displacement_x(keys, t1 + t2) == spec_displacement_x(keys, t1)
            + spec_displacement_x(keys, t2),
        spec_displacement_y(keys, t1 + t2) == spec_displacement_y(keys, t1)
            + spec_displacement_y(keys, t2),
        spec_displacement_z(keys, t1 + t2) == spec_displacement_z(keys, t1)
            + spec_displacement_z(keys, t2),
{
    let s = spec_speed(keys.shift);
    let cx = spec_direction_x(keys);
    let cy = spec_direction_y(keys);
    let cz = spec_direction_z(keys);
    assert(cx * s * (t1 + t2) == cx * s * t1 + cx * s * t2) by (nonlinear_arith);
    assert(cy * s * (t1 + t2) == cy * s * t1 + cy * s * t2) by (nonlinear_arith);
    assert(cz * s * (t1 + t2) == cz * s * t1 + cz * s * t2) by (nonlinear_arith);
}

/// Displacement scales linearly with elapsed time: scaling the frame time
/// by any factor scales every component by that factor, so the
/// displacement magnitude scales by it too (its square by the factor's
/// square).
pub proof fn lemma_displacement_linear_in_time(keys: HeldKeys, factor: int, elapsed: int)
    ensures
        spec_displacement_x(keys, factor * elapsed) == factor * spec_displacement_x(keys, elapsed),
        spec_displacement_y(keys, factor * elapsed) == factor * spec_displacement_y(keys, elapsed),
        spec_displacement_z(keys, factor * elapsed) == factor * spec_displacement_z(keys, elapsed),
        spec_displacement_sq_magnitude(keys, factor * elapsed) == factor * factor
            * spec_displacement_sq_magnitude(keys, elapsed),
{
    let s = spec_speed(keys.shift);
    let cx = spec_direction_x(keys);
    let cy = spec_direction_y(keys);
    let cz = spec_direction_z(keys);
    assert(cx * s * (factor * elapsed) == factor * (cx * s * elapsed)) by (nonlinear_arith);
    assert(cy * s * (factor * elapsed) == factor * (cy * s * elapsed)) by (nonlinear_arith);
    assert(cz * s * (factor * elapsed) == factor * (cz * s * elapsed)) by (nonlinear_arith);
    let x = spec_displacement_x(keys, elapsed);
    let y = spec_displacement_y(keys, elapsed);
    let z = spec_displacement_z(keys, elapsed);
    assert((factor * x) * (factor * x) == factor * factor * (x * x)) by (nonlinear_arith);
    assert((factor * y) * (factor * y) == factor * factor * (y * y)) by (nonlinear_arith);
    assert((factor * z) * (factor * z) == factor * factor * (z * z)) by (nonlinear_arith);
    assert(factor * factor * (x * x) + factor * factor * (y * y) + factor * factor * (z * z)
        == factor * factor * (x * x + y * y + z * z)) by (nonlinear_arith);
}

/// Holding shift doubles every displacement component, and so doubles the
/// displacement magnitude (quadrupling its square). The two key states
/// must agree on everything but shift.
pub proof fn lemma_shift_doubles_displacement(plain: HeldKeys, shifted: HeldKeys, elapsed: int)
    requires
        !plain.shift,
        shifted.shift,
        spec_direction_x(shifted) == spec_direction_x(plain),
        spec_direction_y(shifted) == spec_direction_y(plain),
        spec_direction_z(shifted) == spec_direction_z(plain),
    ensures
        spec_displacement_x(shifted, elapsed) == 2 * spec_displacement_x(plain, elapsed),
        spec_displacement_y(shifted, elapsed) == 2 * spec_displacement_y(plain, elapsed),
        spec_displacement_z(shifted, elapsed) == 2 * spec_displacement_z(plain, elapsed),
        spec_displacement_sq_magnitude(shifted, elapsed) == 4 * spec_displacement_sq_magnitude(
            plain,
            elapsed,
        ),
{
    let s = spec_speed(plain.shift);
    let cx = spec_direction_x(plain);
    let cy = spec_direction_y(plain);
    let cz = spec_direction_z(plain);
    assert(cx * (2 * s) * elapsed == 2 * (cx * s * elapsed)) by (nonlinear_arith);
    assert(cy * (2 * s) * elapsed == 2 * (cy * s * elapsed)) by (nonlinear_arith);
    assert(cz * (2 * s) * elapsed == 2 * (cz * s * elapsed)) by (nonlinear_arith);
    let x = spec_displacement_x(plain, elapsed);
    let y = spec_displacement_y(plain, elapsed);
    let z = spec_displacement_z(plain, elapsed);
    assert((2 * x) * (2 * x) + (2 * y) * (2 * y) + (2 * z) * (2 * z) == 4 * (x * x + y * y + z
        * z)) by (nonlinear_arith);
}

/// Zero key input gives zero displacement, whatever the elapsed time.
pub proof fn lemma_no_keys_no_displacement(keys: HeldKeys, elapsed: int)
    requires
        !keys.forward,
        !keys.back,
        !keys.left,
        !keys.right,
        !keys.up,
        !keys.down,
    ensures
        spec_displacement_x(keys, elapsed) == 0,
        spec_displacement_y(keys, elapsed) == 0,
        spec_displacement_z(keys, elapsed) == 0,
{
    let s = spec_speed(keys.shift);
    assert(0 * s * elapsed == 0) by (nonlinear_arith);
}

/// How one axis of the displacement evaluates for each possible direction
/// component.
proof fn lemma_axis_displacement_cases(component: int, shift: bool, elapsed: int, s: int, step: int)
    requires
        s == spec_speed(shift),
        step == s * elapsed,
    ensures
        component == 1 ==> spec_axis_displacement(component, shift, elapsed) == step,
        component == -1 ==> spec_axis_displacement(component, shift, elapsed) == -step,
        component == 0 ==> spec_axis_displacement(component, shift, elapsed) == 0,
{
    assert(1 * s * elapsed == s * elapsed) by (nonlinear_arith);
    assert((-1) * s * elapsed == -(s * elapsed)) by (nonlinear_arith);
    assert(0 * s * elapsed == 0) by (nonlinear_arith);
}

} // verus!
