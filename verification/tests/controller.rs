use flycam::cursor::CursorMode;
use flycam::frame::{frame_update, FrameInput};
use flycam::input::{local_direction, HeldKeys};
use flycam::look::{CameraRig, PITCH_LIMIT_MICRORAD};
use flycam::movement::{movement_displacement, speed, MAX_FRAME_MICROS};

fn no_keys() -> HeldKeys {
    HeldKeys {
        forward: false,
        back: false,
        left: false,
        right: false,
        up: false,
        down: false,
        shift: false,
    }
}

fn quiet_frame(elapsed_micros: u64, keys: HeldKeys) -> FrameInput {
    FrameInput {
        elapsed_micros,
        keys,
        mouse_delta_x_milli: 0,
        mouse_delta_y_milli: 0,
        mouse_left_just_pressed: false,
        escape_just_pressed: false,
    }
}

#[test]
fn local_direction_maps_each_key_to_its_axis() {
    let d = local_direction(&HeldKeys { forward: true, ..no_keys() });
    assert_eq!((d.x, d.y, d.z), (0, 0, -1));
    let d = local_direction(&HeldKeys { back: true, ..no_keys() });
    assert_eq!((d.x, d.y, d.z), (0, 0, 1));
    let d = local_direction(&HeldKeys { left: true, ..no_keys() });
    assert_eq!((d.x, d.y, d.z), (-1, 0, 0));
    let d = local_direction(&HeldKeys { right: true, ..no_keys() });
    assert_eq!((d.x, d.y, d.z), (1, 0, 0));
    let d = local_direction(&HeldKeys { up: true, ..no_keys() });
    assert_eq!((d.x, d.y, d.z), (0, 1, 0));
    let d = local_direction(&HeldKeys { down: true, ..no_keys() });
    assert_eq!((d.x, d.y, d.z), (0, -1, 0));
}

#[test]
fn opposing_keys_cancel() {
    let d = local_direction(&HeldKeys { forward: true, back: true, ..no_keys() });
    assert_eq!(d.z, 0);
    let d = local_direction(&HeldKeys { left: true, right: true, ..no_keys() });
    assert_eq!(d.x, 0);
    let d = local_direction(&HeldKeys { up: true, down: true, ..no_keys() });
    assert_eq!(d.y, 0);
    // With every key held, all three axes cancel and nothing moves.
    let all = HeldKeys {
        forward: true,
        back: true,
        left: true,
        right: true,
        up: true,
        down: true,
        shift: true,
    };
    let disp = movement_displacement(&all, 5_000_000);
    assert_eq!((disp.x, disp.y, disp.z), (0, 0, 0));
}

#[test]
fn speed_is_ten_and_doubles_under_shift() {
    assert_eq!(speed(false), 10);
    assert_eq!(speed(true), 20);
}

#[test]
fn displacement_scales_linearly_with_time() {
    let keys = HeldKeys { forward: true, ..no_keys() };
    // One second at 10 units/s: 10 units toward local -Z, in micro-units.
    let one = movement_displacement(&keys, 1_000_000);
    assert_eq!((one.x, one.y, one.z), (0, 0, -10_000_000));
    let three = movement_displacement(&keys, 3_000_000);
    assert_eq!(three.z, 3 * one.z);
    let zero = movement_displacement(&keys, 0);
    assert_eq!((zero.x, zero.y, zero.z), (0, 0, 0));
}

#[test]
fn displacement_doubles_under_shift() {
    let plain = HeldKeys { forward: true, right: true, up: true, ..no_keys() };
    let shifted = HeldKeys { shift: true, ..plain };
    let d1 = movement_displacement(&plain, 250_000);
    let d2 = movement_displacement(&shifted, 250_000);
    assert_eq!(d2.x, 2 * d1.x);
    assert_eq!(d2.y, 2 * d1.y);
    assert_eq!(d2.z, 2 * d1.z);
}

#[test]
fn zero_key_input_gives_zero_displacement() {
    let disp = movement_displacement(&no_keys(), MAX_FRAME_MICROS);
    assert_eq!((disp.x, disp.y, disp.z), (0, 0, 0));
    // Shift alone is not movement.
    let disp = movement_displacement(&HeldKeys { shift: true, ..no_keys() }, 1_000_000);
    assert_eq!((disp.x, disp.y, disp.z), (0, 0, 0));
}

#[test]
fn diagonal_movement_is_faster_than_single_axis() {
    // The combined direction is deliberately not normalized: two held
    // keys displace sqrt(2) times as far as one.
    let diagonal = movement_displacement(
        &HeldKeys { forward: true, right: true, ..no_keys() },
        1_000_000,
    );
    let single = movement_displacement(&HeldKeys { forward: true, ..no_keys() }, 1_000_000);
    let diag_sq = diagonal.x as i128 * diagonal.x as i128 + diagonal.z as i128 * diagonal.z as i128;
    let single_sq = single.z as i128 * single.z as i128;
    assert_eq!(diag_sq, 2 * single_sq);
}

#[test]
fn zero_mouse_delta_leaves_rig_unchanged() {
    let mut rig = CameraRig::new();
    rig.look_update(3_210, -4_560);
    let before = rig;
    rig.look_update(0, 0);
    assert_eq!(rig, before);
}

#[test]
fn look_update_turns_by_five_microradians_per_millicount() {
    let mut rig = CameraRig::new();
    // 100 counts of rightward motion turn the camera 0.5 rad to the right.
    rig.look_update(100_000, 0);
    assert_eq!(rig.yaw_angle, -500_000);
    // 100 counts of upward motion (negative y) pitch it 0.5 rad up.
    rig.look_update(0, -100_000);
    assert_eq!(rig.pitch_angle, 500_000);
}

#[test]
fn full_downward_flick_clamps_to_one_radian() {
    // From identity, a single frame of mouse delta (0, -200) at
    // 0.005 rad per count asks for clamp(1.0 rad) = 1.0 rad of pitch.
    let mut rig = CameraRig::new();
    rig.look_update(0, -200_000);
    assert_eq!(rig.pitch_angle, 1_000_000);
    assert_eq!(rig.yaw_angle, 0);
}

#[test]
fn pitch_saturates_under_cumulative_input() {
    let mut rig = CameraRig::new();
    // Ten thousand frames of a large downward delta: the pitch reaches
    // the lower limit and sits exactly there, without drifting past it.
    for _ in 0..10_000 {
        rig.look_update(0, 1_000_000);
        assert!(rig.pitch_angle >= -PITCH_LIMIT_MICRORAD);
    }
    assert_eq!(rig.pitch_angle, -PITCH_LIMIT_MICRORAD);
    rig.look_update(0, 1_000_000);
    assert_eq!(rig.pitch_angle, -PITCH_LIMIT_MICRORAD);
    // And the same toward the upper limit.
    for _ in 0..10_000 {
        rig.look_update(0, -1_000_000);
        assert!(rig.pitch_angle <= PITCH_LIMIT_MICRORAD);
    }
    assert_eq!(rig.pitch_angle, PITCH_LIMIT_MICRORAD);
}

#[test]
fn horizontal_motion_never_changes_pitch() {
    let mut rig = CameraRig::new();
    rig.look_update(0, -60_000);
    let pitch = rig.pitch_angle;
    for _ in 0..1_000 {
        rig.look_update(7_000, 0);
        assert_eq!(rig.pitch_angle, pitch);
    }
    assert_eq!(rig.yaw_angle, -1_000 * 7_000 * 5);
}

#[test]
fn cursor_lock_scenario() {
    // Free, then a left click locks and hides; escape frees and shows; a
    // second escape while already free is a no-op.
    let free = CursorMode::initial();
    assert_eq!(free, CursorMode::Free);
    assert!(free.cursor_visible());
    let locked = free.after_input(true, false);
    assert_eq!(locked, CursorMode::Locked);
    assert!(!locked.cursor_visible());
    let freed = locked.after_input(false, true);
    assert_eq!(freed, CursorMode::Free);
    assert!(freed.cursor_visible());
    let still_free = freed.after_input(false, true);
    assert_eq!(still_free, CursorMode::Free);
}

#[test]
fn cursor_stays_put_without_edges() {
    assert_eq!(CursorMode::Free.after_input(false, false), CursorMode::Free);
    assert_eq!(CursorMode::Locked.after_input(false, false), CursorMode::Locked);
    // A click while already locked keeps it locked.
    assert_eq!(CursorMode::Locked.after_input(true, false), CursorMode::Locked);
    // Escape wins when both edges land in the same frame.
    assert_eq!(CursorMode::Locked.after_input(true, true), CursorMode::Free);
}

#[test]
fn frame_update_runs_movement_look_and_cursor() {
    let mut rig = CameraRig::new();
    let input = FrameInput {
        elapsed_micros: 500_000,
        keys: HeldKeys { back: true, ..no_keys() },
        mouse_delta_x_milli: 1_000,
        mouse_delta_y_milli: -2_000,
        mouse_left_just_pressed: true,
        escape_just_pressed: false,
    };
    let (disp, mode) = frame_update(&mut rig, CursorMode::Free, &input);
    assert_eq!((disp.x, disp.y, disp.z), (0, 0, 5_000_000));
    assert_eq!(rig.yaw_angle, -5_000);
    assert_eq!(rig.pitch_angle, 10_000);
    assert_eq!(mode, CursorMode::Locked);
}

#[test]
fn quiet_frames_change_nothing() {
    let mut rig = CameraRig::new();
    rig.look_update(123_000, -45_000);
    let before = rig;
    for _ in 0..100 {
        let (disp, mode) =
            frame_update(&mut rig, CursorMode::Locked, &quiet_frame(16_667, no_keys()));
        assert_eq!((disp.x, disp.y, disp.z), (0, 0, 0));
        assert_eq!(mode, CursorMode::Locked);
    }
    assert_eq!(rig, before);
}
