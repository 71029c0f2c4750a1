//! Numbers and vectors as the native library stores them: every component
//! is a 32-bit floating-point number, held here by its bit pattern.

use vstd::prelude::*;

verus! {

/// A 32-bit floating-point number in IEEE 754 binary32 form, held by its
/// bit pattern. Two scalars are equal when their bits are.
#[derive(Clone, Copy, Debug, PartialEq, Eq, Structural)]
pub struct Scalar {
    pub bits: u32,
}

/// A vector of two scalars.
#[derive(Clone, Copy, Debug, PartialEq, Eq, Structural)]
pub struct Vector2 {
    pub x: Scalar,
    pub y: Scalar,
}

/// A vector of three scalars.
#[derive(Clone, Copy, Debug, PartialEq, Eq, Structural)]
pub struct Vector3 {
    pub x: Scalar,
    pub y: Scalar,
    pub z: Scalar,
}

} // verus!
