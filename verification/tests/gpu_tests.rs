use render_core::gpu::select_surface_format;
use wgpu::TextureFormat;

#[test]
fn picks_the_first_srgb_capable_format() {
    let formats = vec![
        TextureFormat::Bgra8Unorm,
        TextureFormat::Rgba8Unorm,
        TextureFormat::Bgra8UnormSrgb,
        TextureFormat::Rgba8UnormSrgb,
    ];
    assert_eq!(select_surface_format(&formats), TextureFormat::Bgra8UnormSrgb);
}

#[test]
fn falls_back_to_the_first_offered_format() {
    let formats = vec![TextureFormat::Bgra8Unorm, TextureFormat::Rgba8Unorm];
    assert_eq!(select_surface_format(&formats), TextureFormat::Bgra8Unorm);
}

#[test]
fn srgb_first_format_is_taken_directly() {
    let formats = vec![TextureFormat::Rgba8UnormSrgb, TextureFormat::Bgra8Unorm];
    assert_eq!(select_surface_format(&formats), TextureFormat::Rgba8UnormSrgb);
}
