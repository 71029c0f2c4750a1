use raylib_camera::camera::Camera3D;
use raylib_camera::consts::{CameraMode, KeyboardKey};
use raylib_camera::control::NativeCall;
use raylib_camera::math::{Scalar, Vector3};

fn s(value: f32) -> Scalar {
    Scalar { bits: value.to_bits() }
}

fn v3(x: f32, y: f32, z: f32) -> Vector3 {
    Vector3 { x: s(x), y: s(y), z: s(z) }
}

#[test]
fn set_camera_mode_carries_image_and_mode() {
    let camera =
        Camera3D::orthographic(v3(4.0, 2.0, 4.0), v3(0.0, 1.8, 0.0), v3(0.0, 1.0, 0.0), s(60.0));
    let call = NativeCall::set_camera_mode(&camera, CameraMode::CAMERA_FIRST_PERSON);
    assert_eq!(
        call,
        NativeCall::SetCameraMode {
            camera: [
                0x4080_0000,
                0x4000_0000,
                0x4080_0000,
                0x0000_0000,
                0x3fe6_6666,
                0x0000_0000,
                0x0000_0000,
                0x3f80_0000,
                0x0000_0000,
                0x4270_0000,
                1,
            ],
            mode: 3,
        }
    );
    match NativeCall::set_camera_mode(&camera, CameraMode::CAMERA_CUSTOM) {
        NativeCall::SetCameraMode { camera: image, mode } => {
            assert_eq!(image, camera.to_native());
            assert_eq!(mode, 0);
        }
        other => panic!("unexpected call {:?}", other),
    }
}

#[test]
fn set_camera_mode_for_each_mode() {
    let camera =
        Camera3D::perspective(v3(0.0, 0.0, 0.0), v3(0.0, 0.0, 1.0), v3(0.0, 1.0, 0.0), s(45.0));
    let expected = [
        (CameraMode::CAMERA_CUSTOM, 0),
        (CameraMode::CAMERA_FREE, 1),
        (CameraMode::CAMERA_ORBITAL, 2),
        (CameraMode::CAMERA_FIRST_PERSON, 3),
        (CameraMode::CAMERA_THIRD_PERSON, 4),
    ];
    for (mode, code) in expected {
        assert_eq!(
            NativeCall::set_camera_mode(&camera, mode),
            NativeCall::SetCameraMode { camera: camera.to_native(), mode: code }
        );
    }
}

#[test]
fn pan_control_carries_key_code() {
    assert_eq!(
        NativeCall::set_camera_pan_control(KeyboardKey::KEY_LEFT_SHIFT),
        NativeCall::SetCameraPanControl { pan_key: 340 }
    );
}

#[test]
fn alt_control_carries_key_code() {
    assert_eq!(
        NativeCall::set_camera_alt_control(KeyboardKey::KEY_LEFT_ALT),
        NativeCall::SetCameraAltControl { alt_key: 342 }
    );
}

#[test]
fn smooth_zoom_control_carries_key_code() {
    assert_eq!(
        NativeCall::set_camera_smooth_zoom_control(KeyboardKey::KEY_LEFT_CONTROL),
        NativeCall::SetCameraSmoothZoomControl { sz_key: 341 }
    );
}

#[test]
fn move_controls_carry_key_codes_in_order() {
    assert_eq!(
        NativeCall::set_camera_move_controls(
            KeyboardKey::KEY_W,
            KeyboardKey::KEY_S,
            KeyboardKey::KEY_D,
            KeyboardKey::KEY_A,
            KeyboardKey::KEY_E,
            KeyboardKey::KEY_Q,
        ),
        NativeCall::SetCameraMoveControls {
            front_key: 87,
            back_key: 83,
            right_key: 68,
            left_key: 65,
            up_key: 69,
            down_key: 81,
        }
    );
    assert_eq!(
        NativeCall::set_camera_move_controls(
            KeyboardKey::KEY_UP,
            KeyboardKey::KEY_DOWN,
            KeyboardKey::KEY_RIGHT,
            KeyboardKey::KEY_LEFT,
            KeyboardKey::KEY_PAGE_UP,
            KeyboardKey::KEY_PAGE_DOWN,
        ),
        NativeCall::SetCameraMoveControls {
            front_key: 265,
            back_key: 264,
            right_key: 262,
            left_key: 263,
            up_key: 266,
            down_key: 267,
        }
    );
}

#[test]
fn calls_of_different_entry_points_differ() {
    let key = KeyboardKey::KEY_SPACE;
    let pan = NativeCall::set_camera_pan_control(key);
    let alt = NativeCall::set_camera_alt_control(key);
    let zoom = NativeCall::set_camera_smooth_zoom_control(key);
    assert_ne!(pan, alt);
    assert_ne!(pan, zoom);
    assert_ne!(alt, zoom);
}
