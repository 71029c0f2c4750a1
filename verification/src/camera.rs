//! The two cameras and their native images.
//!
//! The native library keeps a camera as a run of 32-bit words, one per
//! field and in the order of the fields, without padding. A conversion here
//! writes or reads that run word by word; nothing is reinterpreted in place.

use vstd::prelude::*;
use crate::consts::CameraType;
use crate::math::Scalar;
use crate::math::Vector2;
use crate::math::Vector3;

verus! {

/// The number of 32-bit words in the native image of a [`Camera3D`]: three
/// vectors of three, the field of view, and the projection.
pub const CAMERA3D_WORDS: usize = 11;

/// The number of 32-bit words in the native image of a [`Camera2D`]: two
/// vectors of two, the rotation, and the zoom.
pub const CAMERA2D_WORDS: usize = 6;

/// A camera in three dimensions.
#[derive(Clone, Copy, Debug, PartialEq, Eq, Structural)]
pub struct Camera3D {
    /// Where the camera stands.
    pub position: Vector3,
    /// The point that the camera looks at.
    pub target: Vector3,
    /// The direction that is up for the camera.
    pub up: Vector3,
    /// The vertical field of view, in degrees.
    pub fovy: Scalar,
    /// How the camera projects the scene.
    pub type_: CameraType,
}

/// The camera that is meant where no dimension is named.
pub type Camera = Camera3D;

impl Camera3D {
    /// The native image of this camera: position, target and up, each as x,
    /// y, z; then the field of view; then the projection's integer.
    pub open spec fn layout(self) -> Seq<u32> {
        seq![
            self.position.x.bits,
            self.position.y.bits,
            self.position.z.bits,
            self.target.x.bits,
            self.target.y.bits,
            self.target.z.bits,
            self.up.x.bits,
            self.up.y.bits,
            self.up.z.bits,
            self.fovy.bits,
            self.type_.code() as u32,
        ]
    }

    /// The camera whose native image is `words`, if there is one: `words`
    /// must have the length of an image and its last word must name a
    /// projection.
    pub open spec fn from_layout(words: Seq<u32>) -> Option<Camera3D> {
        if words.len() != CAMERA3D_WORDS {
            None
        } else {
            match CameraType::from_code(words[10] as int) {
                Some(kind) => Some(Camera3D::with_vectors_of(words, kind)),
                None => None,
            }
        }
    }

    /// The camera that has its vectors and its field of view from the image
    /// `words`, and the projection `kind`.
    pub open spec fn with_vectors_of(words: Seq<u32>, kind: CameraType) -> Camera3D
        recommends
            words.len() == CAMERA3D_WORDS,
    {
        Camera3D {
            position: Vector3 {
                x: Scalar { bits: words[0] },
                y: Scalar { bits: words[1] },
                z: Scalar { bits: words[2] },
            },
            target: Vector3 {
                x: Scalar { bits: words[3] },
                y: Scalar { bits: words[4] },
                z: Scalar { bits: words[5] },
            },
            up: Vector3 {
                x: Scalar { bits: words[6] },
                y: Scalar { bits: words[7] },
                z: Scalar { bits: words[8] },
            },
            fovy: Scalar { bits: words[9] },
            type_: kind,
        }
    }

    /// The projection of this camera.
    pub fn camera_type(&self) -> (kind: CameraType)
        ensures
            kind == self.type_,
    {
        self.type_
    }

    /// Creates a perspective camera. `fovy` is in degrees. No argument is
    /// examined: each is stored as given.
    pub fn perspective(
        position: Vector3,
        target: Vector3,
        up: Vector3,
        fovy: Scalar,
    ) -> (camera: Camera3D)
        ensures
            camera == (Camera3D {
                position,
                target,
                up,
                fovy,
                type_: CameraType::CAMERA_PERSPECTIVE,
            }),
    {
        Camera3D { position, target, up, fovy, type_: CameraType::CAMERA_PERSPECTIVE }
    }

    /// Creates an orthographic camera. `fovy` is in degrees. No argument is
    /// examined: each is stored as given.
    pub fn orthographic(
        position: Vector3,
        target: Vector3,
        up: Vector3,
        fovy: Scalar,
    ) -> (camera: Camera3D)
        ensures
            camera == (Camera3D {
                position,
                target,
                up,
                fovy,
                type_: CameraType::CAMERA_ORTHOGRAPHIC,
            }),
    {
        let mut c = Camera3D::perspective(position, target, up, fovy);
        c.type_ = CameraType::CAMERA_ORTHOGRAPHIC;
        c
    }

    /// Writes the native image of this camera, field by field.
    pub fn to_native(&self) -> (words: [u32; CAMERA3D_WORDS])
        ensures
            words@ == self.layout(),
    {
        let kind: i32 = self.type_.to_native();
        [
            self.position.x.bits,
            self.position.y.bits,
            self.position.z.bits,
            self.target.x.bits,
            self.target.y.bits,
            self.target.z.bits,
            self.up.x.bits,
            self.up.y.bits,
            self.up.z.bits,
            self.fovy.bits,
            kind as u32,
        ]
    }

    /// Reads a native image, field by field. The result is `None` exactly
    /// when the last word names no projection; every bit pattern of the
    /// other words is taken as it is.
    pub fn from_native(words: &[u32; CAMERA3D_WORDS]) -> (camera: Option<Camera3D>)
        ensures
            camera == Camera3D::from_layout(words@),
            camera is Some <==> CameraType::from_code(words@[10] as int) is Some,
    {
        let last: u32 = words[10];
        if last > 0x7fff_ffff {
            // As a native integer this word is negative.
            return None;
        }
        match CameraType::from_native(last as i32) {
            Some(kind) => Some(Camera3D::read_vectors(words, kind)),
            None => None,
        }
    }

    /// Takes over what the native update routine left in `updated`, the
    /// image that it was handed by [`Camera3D::to_native`] and has worked on.
    /// Position, target, up and field of view are read from `updated`. The
    /// projection is not: it stays as it was, whatever the last word of
    /// `updated` holds.
    pub fn update_camera(&mut self, updated: &[u32; CAMERA3D_WORDS])
        ensures
            *final(self) == Camera3D::with_vectors_of(updated@, old(self).type_),
            final(self).type_ == old(self).type_,
    {
        *self = Camera3D::read_vectors(updated, self.type_);
    }

    fn read_vectors(words: &[u32; CAMERA3D_WORDS], kind: CameraType) -> (camera: Camera3D)
        ensures
            camera == Camera3D::with_vectors_of(words@, kind),
    {
        Camera3D {
            position: Vector3 {
                x: Scalar { bits: words[0] },
                y: Scalar { bits: words[1] },
                z: Scalar { bits: words[2] },
            },
            target: Vector3 {
                x: Scalar { bits: words[3] },
                y: Scalar { bits: words[4] },
                z: Scalar { bits: words[5] },
            },
            up: Vector3 {
                x: Scalar { bits: words[6] },
                y: Scalar { bits: words[7] },
                z: Scalar { bits: words[8] },
            },
            fovy: Scalar { bits: words[9] },
            type_: kind,
        }
    }

    /// A camera written to its native image and read back is the same
    /// camera, in every field and bit for bit.
    pub proof fn lemma_native_round_trip(camera: Camera3D)
        ensures
            camera.layout().len() == CAMERA3D_WORDS,
            Camera3D::from_layout(camera.layout()) == Some(camera),
    {
    }

    /// A native image that reads as a camera is the image of that camera:
    /// reading and writing back gives the same words.
    pub proof fn lemma_layout_round_trip(words: Seq<u32>)
        requires
            Camera3D::from_layout(words) is Some,
        ensures
            Camera3D::from_layout(words)->Some_0.layout() == words,
    {
        let camera = Camera3D::from_layout(words)->Some_0;
        assert(camera.layout() =~= words);
    }

    /// Two cameras with the same native image are the same camera.
    pub proof fn lemma_layout_injective(a: Camera3D, b: Camera3D)
        requires
            a.layout() == b.layout(),
        ensures
            a == b,
    {
        Camera3D::lemma_native_round_trip(a);
        Camera3D::lemma_native_round_trip(b);
    }

    /// An update changes at most the first ten words of the camera's image:
    /// they become those of the updated image, and the word of the
    /// projection stays.
    pub proof fn lemma_update_keeps_projection(camera: Camera3D, updated: Seq<u32>)
        requires
            updated.len() == CAMERA3D_WORDS,
        ensures
            Camera3D::with_vectors_of(updated, camera.type_).type_ == camera.type_,
            Camera3D::with_vectors_of(updated, camera.type_).layout() == updated.update(
                10,
                camera.layout()[10],
            ),
    {
        let after = Camera3D::with_vectors_of(updated, camera.type_);
        assert(after.layout() =~= updated.update(10, camera.layout()[10]));
    }

    /// Where the native routine has left the projection's word as it was
    /// handed over, an update is the same as reading the whole updated image.
    /// In particular an update with the camera's own image changes nothing.
    pub proof fn lemma_update_is_whole_read(camera: Camera3D, updated: Seq<u32>)
        requires
            updated.len() == CAMERA3D_WORDS,
            updated[10] == camera.layout()[10],
        ensures
            Camera3D::from_layout(updated) == Some(
                Camera3D::with_vectors_of(updated, camera.type_),
            ),
            Camera3D::with_vectors_of(camera.layout(), camera.type_) == camera,
    {
    }
}

/// A camera in two dimensions.
#[derive(Clone, Copy, Debug, PartialEq, Eq, Structural)]
pub struct Camera2D {
    /// The displacement of the camera from its target.
    pub offset: Vector2,
    /// The point that the camera looks at.
    pub target: Vector2,
    /// The rotation of the camera, in degrees.
    pub rotation: Scalar,
    /// The scaling of the camera.
    pub zoom: Scalar,
}

impl Camera2D {
    /// The native image of this camera: offset and target, each as x, y;
    /// then the rotation; then the zoom.
    pub open spec fn layout(self) -> Seq<u32> {
        seq![
            self.offset.x.bits,
            self.offset.y.bits,
            self.target.x.bits,
            self.target.y.bits,
            self.rotation.bits,
            self.zoom.bits,
        ]
    }

    /// The camera whose native image is `words`, read for an image of the
    /// right length.
    pub open spec fn from_layout(words: Seq<u32>) -> Camera2D
        recommends
            words.len() == CAMERA2D_WORDS,
    {
        Camera2D {
            offset: Vector2 { x: Scalar { bits: words[0] }, y: Scalar { bits: words[1] } },
            target: Vector2 { x: Scalar { bits: words[2] }, y: Scalar { bits: words[3] } },
            rotation: Scalar { bits: words[4] },
            zoom: Scalar { bits: words[5] },
        }
    }

    /// Writes the native image of this camera, field by field.
    pub fn to_native(&self) -> (words: [u32; CAMERA2D_WORDS])
        ensures
            words@ == self.layout(),
    {
        [
            self.offset.x.bits,
            self.offset.y.bits,
            self.target.x.bits,
            self.target.y.bits,
            self.rotation.bits,
            self.zoom.bits,
        ]
    }

    /// Reads a native image, field by field. Every image is that of a
    /// camera: each bit pattern is taken as it is.
    pub fn from_native(words: &[u32; CAMERA2D_WORDS]) -> (camera: Camera2D)
        ensures
            camera == Camera2D::from_layout(words@),
    {
        Camera2D {
            offset: Vector2 { x: Scalar { bits: words[0] }, y: Scalar { bits: words[1] } },
            target: Vector2 { x: Scalar { bits: words[2] }, y: Scalar { bits: words[3] } },
            rotation: Scalar { bits: words[4] },
            zoom: Scalar { bits: words[5] },
        }
    }

    /// A camera written to its native image and read back is the same
    /// camera, in every field and bit for bit.
    pub proof fn lemma_native_round_trip(camera: Camera2D)
        ensures
            camera.layout().len() == CAMERA2D_WORDS,
            Camera2D::from_layout(camera.layout()) == camera,
    {
    }

    /// Every native image of the right length is the image of the camera
    /// that is read from it.
    pub proof fn lemma_layout_round_trip(words: Seq<u32>)
        requires
            words.len() == CAMERA2D_WORDS,
        ensures
            Camera2D::from_layout(words).layout() == words,
    {
        assert(Camera2D::from_layout(words).layout() =~= words);
    }
}

impl Default for Camera2D {
    /// The camera whose every field is positive zero.
    fn default() -> (camera: Camera2D)
        ensures
            camera == (Camera2D {
                offset: Vector2 { x: Scalar { bits: 0 }, y: Scalar { bits: 0 } },
                target: Vector2 { x: Scalar { bits: 0 }, y: Scalar { bits: 0 } },
                rotation: Scalar { bits: 0 },
                zoom: Scalar { bits: 0 },
            }),
    {
        let zero = Scalar { bits: 0 };
        Camera2D {
            offset: Vector2 { x: zero, y: zero },
            target: Vector2 { x: zero, y: zero },
            rotation: zero,
            zoom: zero,
        }
    }
}

} // verus!
