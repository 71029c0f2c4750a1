//! The native library's enumerations for cameras and keys, each with the
//! integer by which the native side knows it.

use vstd::prelude::*;

verus! {

/// How a three-dimensional camera projects the scene.
#[allow(non_camel_case_types)]
#[derive(Clone, Copy, Debug, PartialEq, Eq, Structural)]
pub enum CameraType {
    CAMERA_PERSPECTIVE,
    CAMERA_ORTHOGRAPHIC,
}

impl CameraType {
    /// The integer by which the native library knows this projection.
    pub open spec fn code(self) -> i32 {
        match self {
            CameraType::CAMERA_PERSPECTIVE => 0,
            CameraType::CAMERA_ORTHOGRAPHIC => 1,
        }
    }

    /// The projection that the native library knows by `code`, if there is
    /// one.
    pub open spec fn from_code(code: int) -> Option<CameraType> {
        if code == 0 {
            Some(CameraType::CAMERA_PERSPECTIVE)
        } else if code == 1 {
            Some(CameraType::CAMERA_ORTHOGRAPHIC)
        } else {
            None
        }
    }

    /// Gives the native integer of this projection.
    pub fn to_native(self) -> (code: i32)
        ensures
            code == self.code(),
    {
        match self {
            CameraType::CAMERA_PERSPECTIVE => 0,
            CameraType::CAMERA_ORTHOGRAPHIC => 1,
        }
    }

    /// Reads a native integer as a projection. The result is `None` exactly
    /// when the integer names no projection.
    pub fn from_native(code: i32) -> (kind: Option<CameraType>)
        ensures
            kind == CameraType::from_code(code as int),
    {
        if code == 0 {
            Some(CameraType::CAMERA_PERSPECTIVE)
        } else if code == 1 {
            Some(CameraType::CAMERA_ORTHOGRAPHIC)
        } else {
            None
        }
    }

    /// A projection read back from its own integer is the same projection.
    pub proof fn lemma_code_round_trip(kind: CameraType)
        ensures
            CameraType::from_code(kind.code() as int) == Some(kind),
    {
    }

    /// An integer that names a projection is that projection's integer.
    pub proof fn lemma_from_code_round_trip(code: int)
        requires
            CameraType::from_code(code) is Some,
        ensures
            CameraType::from_code(code)->Some_0.code() == code,
    {
    }
}

/// How the native library moves a three-dimensional camera on each update.
#[allow(non_camel_case_types)]
#[derive(Clone, Copy, Debug, PartialEq, Eq, Structural)]
pub enum CameraMode {
    CAMERA_CUSTOM,
    CAMERA_FREE,
    CAMERA_ORBITAL,
    CAMERA_FIRST_PERSON,
    CAMERA_THIRD_PERSON,
}

impl CameraMode {
    /// The integer by which the native library knows this mode.
    pub open spec fn code(self) -> i32 {
        match self {
            CameraMode::CAMERA_CUSTOM => 0,
            CameraMode::CAMERA_FREE => 1,
            CameraMode::CAMERA_ORBITAL => 2,
            CameraMode::CAMERA_FIRST_PERSON => 3,
            CameraMode::CAMERA_THIRD_PERSON => 4,
        }
    }

    /// Gives the native integer of this mode.
    pub fn to_native(self) -> (code: i32)
        ensures
            code == self.code(),
    {
        match self {
            CameraMode::CAMERA_CUSTOM => 0,
            CameraMode::CAMERA_FREE => 1,
            CameraMode::CAMERA_ORBITAL => 2,
            CameraMode::CAMERA_FIRST_PERSON => 3,
            CameraMode::CAMERA_THIRD_PERSON => 4,
        }
    }

    /// Two modes with the same integer are the same mode.
    pub proof fn lemma_code_injective(a: CameraMode, b: CameraMode)
        requires
            a.code() == b.code(),
        ensures
            a == b,
    {
    }
}

/// A key of the keyboard, as the native library names it.
#[allow(non_camel_case_types)]
#[derive(Clone, Copy, Debug, PartialEq, Eq, Structural)]
pub enum KeyboardKey {
    KEY_APOSTROPHE,
    KEY_COMMA,
    KEY_MINUS,
    KEY_PERIOD,
    KEY_SLASH,
    KEY_ZERO,
    KEY_ONE,
    KEY_TWO,
    KEY_THREE,
    KEY_FOUR,
    KEY_FIVE,
    KEY_SIX,
    KEY_SEVEN,
    KEY_EIGHT,
    KEY_NINE,
    KEY_SEMICOLON,
    KEY_EQUAL,
    KEY_A,
    KEY_B,
    KEY_C,
    KEY_D,
    KEY_E,
    KEY_F,
    KEY_G,
    KEY_H,
    KEY_I,
    KEY_J,
    KEY_K,
    KEY_L,
    KEY_M,
    KEY_N,
    KEY_O,
    KEY_P,
    KEY_Q,
    KEY_R,
    KEY_S,
    KEY_T,
    KEY_U,
    KEY_V,
    KEY_W,
    KEY_X,
    KEY_Y,
    KEY_Z,
    KEY_SPACE,
    KEY_ESCAPE,
    KEY_ENTER,
    KEY_TAB,
    KEY_BACKSPACE,
    KEY_INSERT,
    KEY_DELETE,
    KEY_RIGHT,
    KEY_LEFT,
    KEY_DOWN,
    KEY_UP,
    KEY_PAGE_UP,
    KEY_PAGE_DOWN,
    KEY_HOME,
    KEY_END,
    KEY_CAPS_LOCK,
    KEY_SCROLL_LOCK,
    KEY_NUM_LOCK,
    KEY_PRINT_SCREEN,
    KEY_PAUSE,
    KEY_F1,
    KEY_F2,
    KEY_F3,
    KEY_F4,
    KEY_F5,
    KEY_F6,
    KEY_F7,
    KEY_F8,
    KEY_F9,
    KEY_F10,
    KEY_F11,
    KEY_F12,
    KEY_LEFT_SHIFT,
    KEY_LEFT_CONTROL,
    KEY_LEFT_ALT,
    KEY_LEFT_SUPER,
    KEY_RIGHT_SHIFT,
    KEY_RIGHT_CONTROL,
    KEY_RIGHT_ALT,
    KEY_RIGHT_SUPER,
    KEY_KB_MENU,
    KEY_LEFT_BRACKET,
    KEY_BACKSLASH,
    KEY_RIGHT_BRACKET,
    KEY_GRAVE,
    KEY_KP_0,
    KEY_KP_1,
    KEY_KP_2,
    KEY_KP_3,
    KEY_KP_4,
    KEY_KP_5,
    KEY_KP_6,
    KEY_KP_7,
    KEY_KP_8,
    KEY_KP_9,
    KEY_KP_DECIMAL,
    KEY_KP_DIVIDE,
    KEY_KP_MULTIPLY,
    KEY_KP_SUBTRACT,
    KEY_KP_ADD,
    KEY_KP_ENTER,
    KEY_KP_EQUAL,
}

impl KeyboardKey {
    /// The integer by which the native library knows this key.
    pub open spec fn code(self) -> i32 {
        match self {
            KeyboardKey::KEY_APOSTROPHE => 39,
            KeyboardKey::KEY_COMMA => 44,
            KeyboardKey::KEY_MINUS => 45,
            KeyboardKey::KEY_PERIOD => 46,
            KeyboardKey::KEY_SLASH => 47,
            KeyboardKey::KEY_ZERO => 48,
            KeyboardKey::KEY_ONE => 49,
            KeyboardKey::KEY_TWO => 50,
            KeyboardKey::KEY_THREE => 51,
            KeyboardKey::KEY_FOUR => 52,
            KeyboardKey::KEY_FIVE => 53,
            KeyboardKey::KEY_SIX => 54,
            KeyboardKey::KEY_SEVEN => 55,
            KeyboardKey::KEY_EIGHT => 56,
            KeyboardKey::KEY_NINE => 57,
            KeyboardKey::KEY_SEMICOLON => 59,
            KeyboardKey::KEY_EQUAL => 61,
            KeyboardKey::KEY_A => 65,
            KeyboardKey::KEY_B => 66,
            KeyboardKey::KEY_C => 67,
            KeyboardKey::KEY_D => 68,
            KeyboardKey::KEY_E => 69,
            KeyboardKey::KEY_F => 70,
            KeyboardKey::KEY_G => 71,
            KeyboardKey::KEY_H => 72,
            KeyboardKey::KEY_I => 73,
            KeyboardKey::KEY_J => 74,
            KeyboardKey::KEY_K => 75,
            KeyboardKey::KEY_L => 76,
            KeyboardKey::KEY_M => 77,
            KeyboardKey::KEY_N => 78,
            KeyboardKey::KEY_O => 79,
            KeyboardKey::KEY_P => 80,
            KeyboardKey::KEY_Q => 81,
            KeyboardKey::KEY_R => 82,
            KeyboardKey::KEY_S => 83,
            KeyboardKey::KEY_T => 84,
            KeyboardKey::KEY_U => 85,
            KeyboardKey::KEY_V => 86,
            KeyboardKey::KEY_W => 87,
            KeyboardKey::KEY_X => 88,
            KeyboardKey::KEY_Y => 89,
            KeyboardKey::KEY_Z => 90,
            KeyboardKey::KEY_SPACE => 32,
            KeyboardKey::KEY_ESCAPE => 256,
            KeyboardKey::KEY_ENTER => 257,
            KeyboardKey::KEY_TAB => 258,
            KeyboardKey::KEY_BACKSPACE => 259,
            KeyboardKey::KEY_INSERT => 260,
            KeyboardKey::KEY_DELETE => 261,
            KeyboardKey::KEY_RIGHT => 262,
            KeyboardKey::KEY_LEFT => 263,
            KeyboardKey::KEY_DOWN => 264,
            KeyboardKey::KEY_UP => 265,
            KeyboardKey::KEY_PAGE_UP => 266,
            KeyboardKey::KEY_PAGE_DOWN => 267,
            KeyboardKey::KEY_HOME => 268,
            KeyboardKey::KEY_END => 269,
            KeyboardKey::KEY_CAPS_LOCK => 280,
            KeyboardKey::KEY_SCROLL_LOCK => 281,
            KeyboardKey::KEY_NUM_LOCK => 282,
            KeyboardKey::KEY_PRINT_SCREEN => 283,
            KeyboardKey::KEY_PAUSE => 284,
            KeyboardKey::KEY_F1 => 290,
            KeyboardKey::KEY_F2 => 291,
            KeyboardKey::KEY_F3 => 292,
            KeyboardKey::KEY_F4 => 293,
            KeyboardKey::KEY_F5 => 294,
            KeyboardKey::KEY_F6 => 295,
            KeyboardKey::KEY_F7 => 296,
            KeyboardKey::KEY_F8 => 297,
            KeyboardKey::KEY_F9 => 298,
            KeyboardKey::KEY_F10 => 299,
            KeyboardKey::KEY_F11 => 300,
            KeyboardKey::KEY_F12 => 301,
            KeyboardKey::KEY_LEFT_SHIFT => 340,
            KeyboardKey::KEY_LEFT_CONTROL => 341,
            KeyboardKey::KEY_LEFT_ALT => 342,
            KeyboardKey::KEY_LEFT_SUPER => 343,
            KeyboardKey::KEY_RIGHT_SHIFT => 344,
            KeyboardKey::KEY_RIGHT_CONTROL => 345,
            KeyboardKey::KEY_RIGHT_ALT => 346,
            KeyboardKey::KEY_RIGHT_SUPER => 347,
            KeyboardKey::KEY_KB_MENU => 348,
            KeyboardKey::KEY_LEFT_BRACKET => 91,
            KeyboardKey::KEY_BACKSLASH => 92,
            KeyboardKey::KEY_RIGHT_BRACKET => 93,
            KeyboardKey::KEY_GRAVE => 96,
            KeyboardKey::KEY_KP_0 => 320,
            KeyboardKey::KEY_KP_1 => 321,
            KeyboardKey::KEY_KP_2 => 322,
            KeyboardKey::KEY_KP_3 => 323,
            KeyboardKey::KEY_KP_4 => 324,
            KeyboardKey::KEY_KP_5 => 325,
            KeyboardKey::KEY_KP_6 => 326,
            KeyboardKey::KEY_KP_7 => 327,
            KeyboardKey::KEY_KP_8 => 328,
            KeyboardKey::KEY_KP_9 => 329,
            KeyboardKey::KEY_KP_DECIMAL => 330,
            KeyboardKey::KEY_KP_DIVIDE => 331,
            KeyboardKey::KEY_KP_MULTIPLY => 332,
            KeyboardKey::KEY_KP_SUBTRACT => 333,
            KeyboardKey::KEY_KP_ADD => 334,
            KeyboardKey::KEY_KP_ENTER => 335,
            KeyboardKey::KEY_KP_EQUAL => 336,
        }
    }

    /// Gives the native integer of this key.
    pub fn to_native(self) -> (code: i32)
        ensures
            code == self.code(),
    {
        match self {
            KeyboardKey::KEY_APOSTROPHE => 39,
            KeyboardKey::KEY_COMMA => 44,
            KeyboardKey::KEY_MINUS => 45,
            KeyboardKey::KEY_PERIOD => 46,
            KeyboardKey::KEY_SLASH => 47,
            KeyboardKey::KEY_ZERO => 48,
            KeyboardKey::KEY_ONE => 49,
            KeyboardKey::KEY_TWO => 50,
            KeyboardKey::KEY_THREE => 51,
            KeyboardKey::KEY_FOUR => 52,
            KeyboardKey::KEY_FIVE => 53,
            KeyboardKey::KEY_SIX => 54,
            KeyboardKey::KEY_SEVEN => 55,
            KeyboardKey::KEY_EIGHT => 56,
            KeyboardKey::KEY_NINE => 57,
            KeyboardKey::KEY_SEMICOLON => 59,
            KeyboardKey::KEY_EQUAL => 61,
            KeyboardKey::KEY_A => 65,
            KeyboardKey::KEY_B => 66,
            KeyboardKey::KEY_C => 67,
            KeyboardKey::KEY_D => 68,
            KeyboardKey::KEY_E => 69,
            KeyboardKey::KEY_F => 70,
            KeyboardKey::KEY_G => 71,
            KeyboardKey::KEY_H => 72,
            KeyboardKey::KEY_I => 73,
            KeyboardKey::KEY_J => 74,
            KeyboardKey::KEY_K => 75,
            KeyboardKey::KEY_L => 76,
            KeyboardKey::KEY_M => 77,
            KeyboardKey::KEY_N => 78,
            KeyboardKey::KEY_O => 79,
            KeyboardKey::KEY_P => 80,
            KeyboardKey::KEY_Q => 81,
            KeyboardKey::KEY_R => 82,
            KeyboardKey::KEY_S => 83,
            KeyboardKey::KEY_T => 84,
            KeyboardKey::KEY_U => 85,
            KeyboardKey::KEY_V => 86,
            KeyboardKey::KEY_W => 87,
            KeyboardKey::KEY_X => 88,
            KeyboardKey::KEY_Y => 89,
            KeyboardKey::KEY_Z => 90,
            KeyboardKey::KEY_SPACE => 32,
            KeyboardKey::KEY_ESCAPE => 256,
            KeyboardKey::KEY_ENTER => 257,
            KeyboardKey::KEY_TAB => 258,
            KeyboardKey::KEY_BACKSPACE => 259,
            KeyboardKey::KEY_INSERT => 260,
            KeyboardKey::KEY_DELETE => 261,
            KeyboardKey::KEY_RIGHT => 262,
            KeyboardKey::KEY_LEFT => 263,
            KeyboardKey::KEY_DOWN => 264,
            KeyboardKey::KEY_UP => 265,
            KeyboardKey::KEY_PAGE_UP => 266,
            KeyboardKey::KEY_PAGE_DOWN => 267,
            KeyboardKey::KEY_HOME => 268,
            KeyboardKey::KEY_END => 269,
            KeyboardKey::KEY_CAPS_LOCK => 280,
            KeyboardKey::KEY_SCROLL_LOCK => 281,
            KeyboardKey::KEY_NUM_LOCK => 282,
            KeyboardKey::KEY_PRINT_SCREEN => 283,
            KeyboardKey::KEY_PAUSE => 284,
            KeyboardKey::KEY_F1 => 290,
            KeyboardKey::KEY_F2 => 291,
            KeyboardKey::KEY_F3 => 292,
            KeyboardKey::KEY_F4 => 293,
            KeyboardKey::KEY_F5 => 294,
            KeyboardKey::KEY_F6 => 295,
            KeyboardKey::KEY_F7 => 296,
            KeyboardKey::KEY_F8 => 297,
            KeyboardKey::KEY_F9 => 298,
            KeyboardKey::KEY_F10 => 299,
            KeyboardKey::KEY_F11 => 300,
            KeyboardKey::KEY_F12 => 301,
            KeyboardKey::KEY_LEFT_SHIFT => 340,
            KeyboardKey::KEY_LEFT_CONTROL => 341,
            KeyboardKey::KEY_LEFT_ALT => 342,
            KeyboardKey::KEY_LEFT_SUPER => 343,
            KeyboardKey::KEY_RIGHT_SHIFT => 344,
            KeyboardKey::KEY_RIGHT_CONTROL => 345,
            KeyboardKey::KEY_RIGHT_ALT => 346,
            KeyboardKey::KEY_RIGHT_SUPER => 347,
            KeyboardKey::KEY_KB_MENU => 348,
            KeyboardKey::KEY_LEFT_BRACKET => 91,
            KeyboardKey::KEY_BACKSLASH => 92,
            KeyboardKey::KEY_RIGHT_BRACKET => 93,
            KeyboardKey::KEY_GRAVE => 96,
            KeyboardKey::KEY_KP_0 => 320,
            KeyboardKey::KEY_KP_1 => 321,
            KeyboardKey::KEY_KP_2 => 322,
            KeyboardKey::KEY_KP_3 => 323,
            KeyboardKey::KEY_KP_4 => 324,
            KeyboardKey::KEY_KP_5 => 325,
            KeyboardKey::KEY_KP_6 => 326,
            KeyboardKey::KEY_KP_7 => 327,
            KeyboardKey::KEY_KP_8 => 328,
            KeyboardKey::KEY_KP_9 => 329,
            KeyboardKey::KEY_KP_DECIMAL => 330,
            KeyboardKey::KEY_KP_DIVIDE => 331,
            KeyboardKey::KEY_KP_MULTIPLY => 332,
            KeyboardKey::KEY_KP_SUBTRACT => 333,
            KeyboardKey::KEY_KP_ADD => 334,
            KeyboardKey::KEY_KP_ENTER => 335,
            KeyboardKey::KEY_KP_EQUAL => 336,
        }
    }

    /// Two keys with the same integer are the same key.
    pub proof fn lemma_code_injective(a: KeyboardKey, b: KeyboardKey)
        requires
            a.code() == b.code(),
        ensures
            a == b,
    {
    }
}

} // verus!
