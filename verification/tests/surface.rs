use wgpu::{CompositeAlphaMode, TextureFormat};
use wgpu_circles::surface::{
    first_flagged_index, preferred_format, PhysicalSize, PresentMode, SurfaceConfiguration,
    RENDER_ATTACHMENT,
};

#[test]
fn srgb_format_is_preferred() {
    let formats = vec![
        TextureFormat::Rgba16Float,
        TextureFormat::Bgra8Unorm,
        TextureFormat::Bgra8UnormSrgb,
        TextureFormat::Rgba8UnormSrgb,
    ];
    assert_eq!(preferred_format(&formats), TextureFormat::Bgra8UnormSrgb);
}

#[test]
fn first_format_serves_without_srgb() {
    let formats = vec![TextureFormat::Rgba16Float, TextureFormat::Bgra8Unorm];
    assert_eq!(preferred_format(&formats), TextureFormat::Rgba16Float);
}

#[test]
fn first_flag_is_found() {
    assert_eq!(first_flagged_index(&vec![false, true, true]), 1);
    assert_eq!(first_flagged_index(&vec![false, false]), 0);
    assert_eq!(first_flagged_index(&vec![]), 0);
}

#[test]
fn surface_has_at_least_one_pixel() {
    let config = SurfaceConfiguration::new(
        PhysicalSize { width: 0, height: 600 },
        &vec![TextureFormat::Bgra8Unorm, TextureFormat::Bgra8UnormSrgb],
        &vec![CompositeAlphaMode::PreMultiplied, CompositeAlphaMode::Opaque],
    );
    assert_eq!(
        config,
        SurfaceConfiguration {
            usage: RENDER_ATTACHMENT,
            format: TextureFormat::Bgra8UnormSrgb,
            width: 1,
            height: 600,
            present_mode: PresentMode::AutoVsync,
            alpha_mode: CompositeAlphaMode::PreMultiplied,
            desired_maximum_frame_latency: 2,
        }
    );
    assert!(config.view_formats().is_empty());
}

#[test]
fn flag_of_render_attachment() {
    assert_eq!(RENDER_ATTACHMENT, wgpu::TextureUsages::RENDER_ATTACHMENT.bits());
}
