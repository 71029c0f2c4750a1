use raylib_camera::camera::{Camera2D, CAMERA2D_WORDS};
use raylib_camera::math::{Scalar, Vector2};

fn s(value: f32) -> Scalar {
    Scalar { bits: value.to_bits() }
}

fn v2(x: f32, y: f32) -> Vector2 {
    Vector2 { x: s(x), y: s(y) }
}

#[test]
fn image_has_six_words() {
    assert_eq!(CAMERA2D_WORDS, 6);
    assert_eq!(Camera2D::default().to_native().len(), 6);
}

#[test]
fn default_camera2d_is_all_zero() {
    let c = Camera2D::default();
    assert_eq!(c.offset, v2(0.0, 0.0));
    assert_eq!(c.target, v2(0.0, 0.0));
    assert_eq!(c.rotation, s(0.0));
    assert_eq!(c.zoom, s(0.0));
    assert_eq!(c.to_native(), [0u32; 6]);
}

#[test]
fn camera2d_to_native_writes_fields_in_order() {
    let c = Camera2D { offset: v2(1.0, 2.0), target: v2(3.0, 4.0), rotation: s(90.0), zoom: s(0.5) };
    assert_eq!(
        c.to_native(),
        [0x3f80_0000, 0x4000_0000, 0x4040_0000, 0x4080_0000, 0x42b4_0000, 0x3f00_0000]
    );
}

#[test]
fn camera2d_from_native_reads_fields_in_order() {
    let c = Camera2D::from_native(&[1, 2, 3, 4, 5, 6]);
    assert_eq!(c.offset.x.bits, 1);
    assert_eq!(c.offset.y.bits, 2);
    assert_eq!(c.target.x.bits, 3);
    assert_eq!(c.target.y.bits, 4);
    assert_eq!(c.rotation.bits, 5);
    assert_eq!(c.zoom.bits, 6);
}

#[test]
fn camera2d_round_trip_is_exact() {
    let cameras = [
        Camera2D::default(),
        Camera2D { offset: v2(400.0, 225.0), target: v2(-20.5, 1e-42), rotation: s(-0.0), zoom: s(1.0) },
        Camera2D {
            offset: v2(f32::NAN, f32::INFINITY),
            target: Vector2 { x: Scalar { bits: 0x7f80_0001 }, y: Scalar { bits: u32::MAX } },
            rotation: s(f32::MIN),
            zoom: s(f32::MAX),
        },
    ];
    for c in cameras {
        assert_eq!(Camera2D::from_native(&c.to_native()), c);
    }
}

#[test]
fn camera2d_image_round_trip_is_exact() {
    let images: [[u32; 6]; 3] =
        [[0; 6], [u32::MAX; 6], [0xdead_beef, 0x7fc0_0000, 0x8000_0000, 1, 2, 0x3f80_0000]];
    for words in images {
        assert_eq!(Camera2D::from_native(&words).to_native(), words);
    }
}
