//! The per-frame mouse-look update.
//!
//! The camera's orientation is the composition of a global yaw (about
//! world Y) and a local pitch (about the camera's local X), and carries
//! no roll, so the pair of angles determines it completely. Yaw is
//! accumulated absolutely; pitch is tracked as a separate scalar, clamped
//! to +/-1.0472 rad (+/-60 degrees), and only the increment between the
//! old and the clamped new pitch is ever applied — that is what keeps
//! the clamp exact and keeps roll from creeping in.
//!
//! Units: angles in microradians; mouse motion in thousandths of an
//! input count. The sensitivity of 0.005 rad per count is exactly
//! 5 microradians per thousandth of a count. Moving the mouse right
//! (positive x) turns the camera right (negative yaw); moving it down
//! (positive y) pitches the camera down (negative pitch).

use vstd::prelude::*;

verus! {

/// Mouse sensitivity: 5 microradians per thousandth of an input count,
/// i.e. 0.005 rad per count, on both axes.
pub const SENSITIVITY_MICRORAD_PER_MILLICOUNT: i64 = 5;

/// The pitch clamp: 1.0472 rad (60 degrees) in microradians.
pub const PITCH_LIMIT_MICRORAD: i64 = 1_047_200;

/// The camera's orientation state: a global yaw about world Y and a
/// local pitch about the camera's X axis, both in microradians. The
/// orientation they denote is the yaw rotation composed with the pitch
/// rotation (yaw applied in the world frame, pitch in the local frame).
#[derive(Clone, Copy, Debug, PartialEq, Eq, Structural)]
pub struct CameraRig {
    pub yaw_angle: i64,
    pub pitch_angle: i64,
}

/// `angle` clamped to the pitch range.
pub open spec fn spec_clamp_pitch(angle: int) -> int {
    if angle < -(PITCH_LIMIT_MICRORAD as int) {
        -(PITCH_LIMIT_MICRORAD as int)
    } else if angle > PITCH_LIMIT_MICRORAD as int {
        PITCH_LIMIT_MICRORAD as int
    } else {
        angle
    }
}

/// The yaw after one frame of horizontal mouse motion: the camera turns
/// by the sensitivity-scaled delta, to the left for leftward motion. It
/// depends on nothing but the old yaw and the horizontal delta.
pub open spec fn spec_yaw_after(yaw: int, delta_x_milli: int) -> int {
    yaw - delta_x_milli * SENSITIVITY_MICRORAD_PER_MILLICOUNT
}

/// The pitch after one frame of vertical mouse motion: the
/// sensitivity-scaled delta is subtracted and the result clamped. It
/// depends on nothing but the old pitch and the vertical delta.
pub open spec fn spec_pitch_after(pitch: int, delta_y_milli: int) -> int {
    spec_clamp_pitch(pitch - delta_y_milli * SENSITIVITY_MICRORAD_PER_MILLICOUNT)
}

impl CameraRig {
    /// The rig is well-formed when its pitch respects the clamp. The yaw
    /// is unconstrained: it accumulates.
    pub open spec fn wf(self) -> bool {
        -(PITCH_LIMIT_MICRORAD as int) <= self.pitch_angle as int <= PITCH_LIMIT_MICRORAD as int
    }

    /// A fresh rig: level, looking along its initial heading.
    pub fn new() -> (rig: CameraRig)
        ensures
            rig.yaw_angle == 0,
            rig.pitch_angle == 0,
            rig.wf(),
    {
        CameraRig { yaw_angle: 0, pitch_angle: 0 }
    }

    /// Apply one frame's accumulated mouse motion. The yaw moves by the
    /// scaled horizontal delta; the pitch moves by the scaled vertical
    /// delta and is clamped. A zero delta leaves the rig bit-for-bit
    /// unchanged, and a purely horizontal motion never changes the
    /// pitch.
    pub fn look_update(&mut self, delta_x_milli: i64, delta_y_milli: i64)
        requires
            old(self).wf(),
            i64::MIN <= spec_yaw_after(old(self).yaw_angle as int, delta_x_milli as int)
                <= i64::MAX,
        ensures
            final(self).yaw_angle == spec_yaw_after(old(self).yaw_angle as int, delta_x_milli as int),
            final(self).pitch_angle == spec_pitch_after(
                old(self).pitch_angle as int,
                delta_y_milli as int,
            ),
            final(self).wf(),
            delta_y_milli == 0 ==> final(self).pitch_angle == old(self).pitch_angle,
            delta_x_milli == 0 ==> final(self).yaw_angle == old(self).yaw_angle,
            delta_x_milli == 0 && delta_y_milli == 0 ==> *final(self) == *old(self),
    {
        let yaw_wide: i128 = self.yaw_angle as i128 - delta_x_milli as i128
            * SENSITIVITY_MICRORAD_PER_MILLICOUNT as i128;
        self.yaw_angle = yaw_wide as i64;

        let desired_wide: i128 = self.pitch_angle as i128 - delta_y_milli as i128
            * SENSITIVITY_MICRORAD_PER_MILLICOUNT as i128;
        let desired: i64 = if desired_wide < -(PITCH_LIMIT_MICRORAD as i128) {
            -PITCH_LIMIT_MICRORAD
        } else if desired_wide > PITCH_LIMIT_MICRORAD as i128 {
            PITCH_LIMIT_MICRORAD
        } else {
            desired_wide as i64
        };
        self.pitch_angle = desired;
    }
}

/// The pitch is clamped after every update, no matter how large the
/// accumulated vertical input or how far out the starting value.
pub proof fn lemma_pitch_always_clamped(pitch: int, delta_y_milli: int)
    ensures
        -(PITCH_LIMIT_MICRORAD as int) <= spec_pitch_after(pitch, delta_y_milli)
            <= PITCH_LIMIT_MICRORAD as int,
{
}

/// A saturated pitch stays saturated: once the pitch sits at a limit,
/// further motion toward that limit leaves it exactly there, with no
/// drift past it.
pub proof fn lemma_pitch_saturates(pitch: int, delta_y_milli: int)
    ensures
        pitch == -(PITCH_LIMIT_MICRORAD as int) && delta_y_milli >= 0 ==> spec_pitch_after(
            pitch,
            delta_y_milli,
        ) == pitch,
        pitch == PITCH_LIMIT_MICRORAD as int && delta_y_milli <= 0 ==> spec_pitch_after(
            pitch,
            delta_y_milli,
        ) == pitch,
{
}

/// A well-formed pitch is a fixed point of a vertical-motion-free frame:
/// the clamp only ever bites on values driven outside the range.
pub proof fn lemma_quiet_frame_preserves_pitch(pitch: int)
    requires
        -(PITCH_LIMIT_MICRORAD as int) <= pitch <= PITCH_LIMIT_MICRORAD as int,
    ensures
        spec_pitch_after(pitch, 0) == pitch,
{
}

/// The yaw update is independent of the pitch: two rigs with equal yaw
/// agree on the next yaw for the same horizontal motion, whatever their
/// pitches.
pub proof fn lemma_yaw_independent_of_pitch(r1: CameraRig, r2: CameraRig, delta_x_milli: int)
    requires
        r1.yaw_angle == r2.yaw_angle,
    ensures
        spec_yaw_after(r1.yaw_angle as int, delta_x_milli) == spec_yaw_after(
            r2.yaw_angle as int,
            delta_x_milli,
        ),
{
}

} // verus!
