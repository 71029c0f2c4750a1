//! The calls that configure the native library's camera controls.
//!
//! Nothing here reaches the native library. Each function works out one
//! call, with every argument as the integer or the image that the native
//! entry point takes and in the order in which it takes them; the caller
//! makes the call.

use vstd::prelude::*;
use crate::camera::Camera3D;
use crate::camera::CAMERA3D_WORDS;
use crate::consts::CameraMode;
use crate::consts::KeyboardKey;

verus! {

/// One call of a camera-control entry point of the native library, with its
/// arguments in native form.
#[derive(Clone, Copy, Debug, PartialEq, Eq)]
pub enum NativeCall {
    /// Selects the mode in which the native library moves `camera`.
    SetCameraMode { camera: [u32; CAMERA3D_WORDS], mode: i32 },
    /// Sets the key that pans a free camera together with the mouse.
    SetCameraPanControl { pan_key: i32 },
    /// Sets the alternative key that goes with the mouse for a free camera.
    SetCameraAltControl { alt_key: i32 },
    /// Sets the key that smooths the zoom of a free camera.
    SetCameraSmoothZoomControl { sz_key: i32 },
    /// Sets the six keys that move a first-person or third-person camera.
    SetCameraMoveControls {
        front_key: i32,
        back_key: i32,
        right_key: i32,
        left_key: i32,
        up_key: i32,
        down_key: i32,
    },
}

impl NativeCall {
    /// The call that sets the camera mode: it carries the native image of
    /// `camera` and the integer of `mode`.
    pub fn set_camera_mode(camera: &Camera3D, mode: CameraMode) -> (call: NativeCall)
        ensures
            call matches NativeCall::SetCameraMode { camera: image, mode: code }
                && image@ == camera.layout() && code == mode.code(),
    {
        NativeCall::SetCameraMode { camera: camera.to_native(), mode: mode.to_native() }
    }

    /// The call that sets the pan key of a free camera.
    pub fn set_camera_pan_control(pan_key: KeyboardKey) -> (call: NativeCall)
        ensures
            call == (NativeCall::SetCameraPanControl { pan_key: pan_key.code() }),
    {
        NativeCall::SetCameraPanControl { pan_key: pan_key.to_native() }
    }

    /// The call that sets the alternative key of a free camera.
    pub fn set_camera_alt_control(alt_key: KeyboardKey) -> (call: NativeCall)
        ensures
            call == (NativeCall::SetCameraAltControl { alt_key: alt_key.code() }),
    {
        NativeCall::SetCameraAltControl { alt_key: alt_key.to_native() }
    }

    /// The call that sets the smooth-zoom key of a free camera.
    pub fn set_camera_smooth_zoom_control(sz_key: KeyboardKey) -> (call: NativeCall)
        ensures
            call == (NativeCall::SetCameraSmoothZoomControl { sz_key: sz_key.code() }),
    {
        NativeCall::SetCameraSmoothZoomControl { sz_key: sz_key.to_native() }
    }

    /// The call that sets the move keys of a first-person or third-person
    /// camera. Each key goes to the argument of its own name.
    pub fn set_camera_move_controls(
        front_key: KeyboardKey,
        back_key: KeyboardKey,
        right_key: KeyboardKey,
        left_key: KeyboardKey,
        up_key: KeyboardKey,
        down_key: KeyboardKey,
    ) -> (call: NativeCall)
        ensures
            call == (NativeCall::SetCameraMoveControls {
                front_key: front_key.code(),
                back_key: back_key.code(),
                right_key: right_key.code(),
                left_key: left_key.code(),
                up_key: up_key.code(),
                down_key: down_key.code(),
            }),
    {
        NativeCall::SetCameraMoveControls {
            front_key: front_key.to_native(),
            back_key: back_key.to_native(),
            right_key: right_key.to_native(),
            left_key: left_key.to_native(),
            up_key: up_key.to_native(),
            down_key: down_key.to_native(),
        }
    }
}

} // verus!
