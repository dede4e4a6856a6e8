use glam::{Mat4, Vec3};
use render_core::error::MaterialError;
use render_core::material::{decode_texture, pack_uniform, resolve_texture_source};

#[test]
fn texture_source_prefers_the_loaded_path() {
    let r = resolve_texture_source(Some("models/crate.png".to_string()), "fallback.png".to_string());
    assert_eq!(r, "models/crate.png");
}

#[test]
fn texture_source_falls_back_to_the_placeholder() {
    let r = resolve_texture_source(None, "fallback.png".to_string());
    assert_eq!(r, "fallback.png");
}

// A valid two-by-one pixel RGBA PNG: one opaque red pixel, one
// half-transparent green pixel.
const TINY_PNG: [u8; 72] = [
    137, 80, 78, 71, 13, 10, 26, 10, 0, 0, 0, 13, 73, 72, 68, 82, 0, 0, 0, 2, 0, 0, 0, 1, 8, 6,
    0, 0, 0, 244, 34, 127, 138, 0, 0, 0, 15, 73, 68, 65, 84, 120, 156, 99, 248, 207, 192, 240,
    31, 8, 27, 0, 16, 121, 3, 126, 125, 99, 206, 215, 0, 0, 0, 0, 73, 69, 78, 68, 174, 66, 96,
    130,
];

#[test]
fn texture_bytes_decode_to_rgba_pixels() {
    let (width, height, pixels) = decode_texture(&TINY_PNG).unwrap();
    assert_eq!(width, 2);
    assert_eq!(height, 1);
    assert_eq!(pixels, vec![255, 0, 0, 255, 0, 255, 0, 128]);
}

#[test]
fn invalid_texture_bytes_fail_to_decode() {
    let r = decode_texture(&[1, 2, 3, 4, 5]);
    assert_eq!(r.unwrap_err(), MaterialError::AssetDecodeFailed);
    let empty = decode_texture(&[]);
    assert_eq!(empty.unwrap_err(), MaterialError::AssetDecodeFailed);
}

#[test]
fn uniform_block_is_matrix_then_time_then_padding() {
    let m = Mat4::from_translation(Vec3::new(1.5, -2.0, 3.25));
    let time_bits = 0.5f32.to_bits();
    let data = pack_uniform(&m, time_bits);
    assert_eq!(data.len(), 80);
    assert_eq!(&data[0..64], bytemuck::bytes_of(&m));
    assert_eq!(&data[64..68], &time_bits.to_le_bytes());
    assert!(data[68..80].iter().all(|&b| b == 0));
}

#[test]
fn uniform_block_carries_the_staged_matrix() {
    // Two different matrices pack to different blocks that each carry
    // their own matrix bytes.
    let a = Mat4::IDENTITY;
    let b = Mat4::from_scale(Vec3::new(2.0, 2.0, 2.0));
    let t = 1.0f32.to_bits();
    let pa = pack_uniform(&a, t);
    let pb = pack_uniform(&b, t);
    assert_ne!(pa, pb);
    assert_eq!(&pa[0..64], bytemuck::bytes_of(&a));
    assert_eq!(&pb[0..64], bytemuck::bytes_of(&b));
}
