//! One whole frame of the controller.
//!
//! The host calls `frame_update` once per rendered frame. It applies the
//! three updates in the fixed order the controller is specified in —
//! movement, then look, then cursor lock — so the frame's displacement
//! is taken along the orientation the camera had at the start of the
//! frame, before the frame's mouse motion turns it.

use vstd::prelude::*;
use crate::cursor::{CursorMode, spec_cursor_after};
use crate::input::HeldKeys;
use crate::look::{CameraRig, spec_pitch_after, spec_yaw_after};
use crate::movement::{
    Displacement, MAX_FRAME_MICROS, movement_displacement, spec_displacement_x,
    spec_displacement_y, spec_displacement_z,
};

verus! {

/// Everything the host collected for one frame: the elapsed time, the
/// held keys, the frame's summed mouse-motion delta, and the press edges
/// that drive the cursor lock.
#[derive(Clone, Copy, Debug, PartialEq, Eq, Structural)]
pub struct FrameInput {
    /// Time since the previous frame, in microseconds.
    pub elapsed_micros: u64,
    /// The movement keys held during the frame.
    pub keys: HeldKeys,
    /// Accumulated horizontal mouse motion, in thousandths of a count.
    pub mouse_delta_x_milli: i64,
    /// Accumulated vertical mouse motion, in thousandths of a count.
    pub mouse_delta_y_milli: i64,
    /// Whether the left mouse button was pressed this frame.
    pub mouse_left_just_pressed: bool,
    /// Whether the escape key was pressed this frame.
    pub escape_just_pressed: bool,
}

/// Advance the whole controller by one frame: the displacement to apply
/// along the start-of-frame orientation, the rig's new angles, and the
/// new cursor mode.
pub fn frame_update(rig: &mut CameraRig, mode: CursorMode, input: &FrameInput) -> (out: (
    Displacement,
    CursorMode,
))
    requires
        old(rig).wf(),
        input.elapsed_micros <= MAX_FRAME_MICROS,
        i64::MIN <= spec_yaw_after(old(rig).yaw_angle as int, input.mouse_delta_x_milli as int)
            <= i64::MAX,
    ensures
        out.0.x == spec_displacement_x(input.keys, input.elapsed_micros as int),
        out.0.y == spec_displacement_y(input.keys, input.elapsed_micros as int),
        out.0.z == spec_displacement_z(input.keys, input.elapsed_micros as int),
        final(rig).yaw_angle == spec_yaw_after(
            old(rig).yaw_angle as int,
            input.mouse_delta_x_milli as int,
        ),
        final(rig).pitch_angle == spec_pitch_after(
            old(rig).pitch_angle as int,
            input.mouse_delta_y_milli as int,
        ),
        final(rig).wf(),
        input.mouse_delta_x_milli == 0 && input.mouse_delta_y_milli == 0 ==> *final(rig) == *old(
            rig,
        ),
        out.1 == spec_cursor_after(mode, input.mouse_left_just_pressed, input.escape_just_pressed),
{
    let displacement = movement_displacement(&input.keys, input.elapsed_micros);
    rig.look_update(input.mouse_delta_x_milli, input.mouse_delta_y_milli);
    let next_mode = mode.after_input(input.mouse_left_just_pressed, input.escape_just_pressed);
    (displacement, next_mode)
}

} // verus!
