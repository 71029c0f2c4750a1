//! Camera values of a native graphics library, with the exact word image
//! that the native side reads and writes.

pub mod camera;
pub mod consts;
pub mod control;
pub mod math;
