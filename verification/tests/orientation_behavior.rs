use voxel_cam::config::FaceMode;
use voxel_cam::fixed::{fixed_add_checked, fixed_mul_checked, Fixed, FixedVec2};
use voxel_cam::orientation::{
    cam_look_at, rotate_camera_mouse, sum_mouse_deltas, synchronize_data, LookUpdate,
    ResolvedRotation, UnsupportedMode, VoxelCameraData,
};

/// One whole unit in fixed-point millionths.
const ONE: i64 = 1_000_000;

fn mouse_face() -> FaceMode {
    // sensitivity 0.001
    FaceMode::Mouse { invert_y: false, sensitivity: Fixed { raw: 1000 } }
}

fn fv2(x: i64, y: i64) -> FixedVec2 {
    FixedVec2 { x: Fixed { raw: x }, y: Fixed { raw: y } }
}

#[test]
fn default_data_for_mouse_mode_is_zeroed() {
    assert_eq!(
        mouse_face().default_data(),
        Ok(VoxelCameraData::Mouse { pitch: Fixed { raw: 0 }, yaw: Fixed { raw: 0 } })
    );
}

#[test]
fn default_data_for_undefined_modes_is_a_fault() {
    assert_eq!(FaceMode::Curser.default_data(), Err(UnsupportedMode));
    assert_eq!(FaceMode::Entity(7).default_data(), Err(UnsupportedMode));
    assert_eq!(
        FaceMode::Keyboard { pitch_up: 1, pitch_down: 2, yaw_left: 3, yaw_right: 4 }.default_data(),
        Err(UnsupportedMode)
    );
}

#[test]
fn synchronize_creates_fresh_zeroed_state() {
    assert_eq!(
        synchronize_data(&mouse_face(), None),
        Ok(VoxelCameraData::Mouse { pitch: Fixed { raw: 0 }, yaw: Fixed { raw: 0 } })
    );
}

#[test]
fn synchronize_keeps_matching_state_untouched() {
    // Accumulated yaw of 1.5 survives a synchronizer run while the mode kind
    // still matches the state kind.
    let accumulated = VoxelCameraData::Mouse { pitch: Fixed { raw: 0 }, yaw: Fixed { raw: 3 * ONE / 2 } };
    assert_eq!(synchronize_data(&mouse_face(), Some(&accumulated)), Ok(accumulated));
}

#[test]
fn synchronize_faults_on_undefined_mode() {
    // Switching the mode kind away from pointer-look reaches a mode with no
    // defined state: the loud unsupported-mode fault, not a silent no-op.
    let accumulated = VoxelCameraData::Mouse { pitch: Fixed { raw: 0 }, yaw: Fixed { raw: 3 * ONE / 2 } };
    assert_eq!(synchronize_data(&FaceMode::Curser, Some(&accumulated)), Err(UnsupportedMode));
    assert_eq!(synchronize_data(&FaceMode::Curser, None), Err(UnsupportedMode));
}

#[test]
fn pointer_accumulation_sums_events_then_applies_once() {
    // Three pointer-motion events with deltas (1,2), (3,4), (0,-1) and
    // sensitivity 0.001: yaw grows by 0.004 and pitch by 0.005, as one
    // combined update.
    let events = vec![fv2(1 * ONE, 2 * ONE), fv2(3 * ONE, 4 * ONE), fv2(0, -1 * ONE)];
    let total = sum_mouse_deltas(&events).unwrap();
    assert_eq!(total, fv2(4 * ONE, 5 * ONE));

    let mut data = VoxelCameraData::Mouse { pitch: Fixed { raw: 0 }, yaw: Fixed { raw: 0 } };
    let outcome = rotate_camera_mouse(&mut data, &mouse_face(), &total);
    assert_eq!(outcome, LookUpdate::Applied);
    assert_eq!(data, VoxelCameraData::Mouse { pitch: Fixed { raw: 5000 }, yaw: Fixed { raw: 4000 } });
}

#[test]
fn invert_y_negates_the_pitch_term() {
    let face = FaceMode::Mouse { invert_y: true, sensitivity: Fixed { raw: 1000 } };
    let mut data = VoxelCameraData::Mouse { pitch: Fixed { raw: 100 }, yaw: Fixed { raw: 0 } };
    let outcome = rotate_camera_mouse(&mut data, &face, &fv2(0, 5 * ONE));
    assert_eq!(outcome, LookUpdate::Applied);
    assert_eq!(data, VoxelCameraData::Mouse { pitch: Fixed { raw: 100 - 5000 }, yaw: Fixed { raw: 0 } });
}

#[test]
fn mode_mismatch_skips_the_update() {
    // Pointer-look state under a non-pointer mode is the transient
    // inconsistency before the synchronizer runs: skipped, never applied.
    let mut data = VoxelCameraData::Mouse { pitch: Fixed { raw: 42 }, yaw: Fixed { raw: 43 } };
    let outcome = rotate_camera_mouse(&mut data, &FaceMode::Curser, &fv2(1 * ONE, 1 * ONE));
    assert_eq!(outcome, LookUpdate::ModeMismatch);
    assert_eq!(data, VoxelCameraData::Mouse { pitch: Fixed { raw: 42 }, yaw: Fixed { raw: 43 } });
}

#[test]
fn saturating_accumulation_is_refused_not_wrapped() {
    let mut data = VoxelCameraData::Mouse { pitch: Fixed { raw: 0 }, yaw: Fixed { raw: i64::MAX } };
    let outcome = rotate_camera_mouse(&mut data, &mouse_face(), &fv2(1 * ONE, 0));
    assert_eq!(outcome, LookUpdate::OutOfRange);
    assert_eq!(data, VoxelCameraData::Mouse { pitch: Fixed { raw: 0 }, yaw: Fixed { raw: i64::MAX } });
}

#[test]
fn sum_of_no_events_is_zero() {
    assert_eq!(sum_mouse_deltas(&vec![]), Some(fv2(0, 0)));
}

#[test]
fn sum_overflow_is_reported() {
    let events = vec![fv2(i64::MAX, 0), fv2(i64::MAX, 0)];
    assert_eq!(sum_mouse_deltas(&events), None);
}

#[test]
fn fixed_mul_truncates_toward_zero() {
    // -3 millionths times 0.5 is -1.5 millionths: truncation toward zero
    // gives -1, not the -2 of flooring.
    let r = fixed_mul_checked(Fixed { raw: -3 }, Fixed { raw: 500_000 });
    assert_eq!(r, Some(Fixed { raw: -1 }));
    let r = fixed_mul_checked(Fixed { raw: 3 }, Fixed { raw: 500_000 });
    assert_eq!(r, Some(Fixed { raw: 1 }));
}

#[test]
fn fixed_mul_overflow_is_reported() {
    assert_eq!(fixed_mul_checked(Fixed { raw: i64::MAX }, Fixed { raw: 2 * ONE }), None);
    assert_eq!(fixed_mul_checked(Fixed { raw: i64::MIN }, Fixed { raw: ONE }), None);
}

#[test]
fn fixed_add_overflow_is_reported() {
    assert_eq!(fixed_add_checked(Fixed { raw: 2 }, Fixed { raw: 3 }), Some(Fixed { raw: 5 }));
    assert_eq!(fixed_add_checked(Fixed { raw: i64::MAX }, Fixed { raw: 1 }), None);
}

#[test]
fn resolver_negates_pitch_and_keeps_yaw() {
    // Accumulated yaw 0.1 and pitch 0.2 resolve to the yaw rotation about the
    // world vertical axis composed, in that order, with the pitch rotation
    // about the local horizontal axis by -0.2.
    let data = VoxelCameraData::Mouse { pitch: Fixed { raw: 200_000 }, yaw: Fixed { raw: 100_000 } };
    let r = cam_look_at(&data);
    assert_eq!(r, ResolvedRotation { yaw: Fixed { raw: 100_000 }, pitch: Fixed { raw: -200_000 } });
}
