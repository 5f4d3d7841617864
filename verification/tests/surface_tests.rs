use rsvg_filters::error::FilterError;
use rsvg_filters::rect::IRect;
use rsvg_filters::surface::{
    BackendStatus, BackendSurface, Pixel, SharedImageSurface, SurfaceType,
};

fn px(r: u8, g: u8, b: u8, a: u8) -> Pixel {
    Pixel { r, g, b, a }
}

fn gradient(width: u32, height: u32) -> Vec<Pixel> {
    let mut pixels = Vec::new();
    for y in 0..height {
        for x in 0..width {
            pixels.push(px((x * 10) as u8, (y * 10) as u8, 200, 255));
        }
    }
    pixels
}

fn surface(width: u32, height: u32, surface_type: SurfaceType) -> SharedImageSurface {
    SharedImageSurface::wrap(BackendSurface::new(width, height, gradient(width, height)), surface_type)
        .unwrap()
}

#[test]
fn wrap_keeps_dimensions_pixels_and_type() {
    let s = surface(3, 2, SurfaceType::LinearRgb);
    assert_eq!(s.width(), 3);
    assert_eq!(s.height(), 2);
    assert_eq!(s.surface_type(), SurfaceType::LinearRgb);
    assert_eq!(s.pixels(), &gradient(3, 2));
    assert_eq!(s.pixels()[1 * 3 + 2], px(20, 10, 200, 255));
    assert_eq!(s.pixels()[1 * 3], px(0, 10, 200, 255));
}

#[test]
fn wrap_rejects_a_failed_backend_surface() {
    let r = SharedImageSurface::wrap(BackendSurface::failed(3, 2), SurfaceType::SRgb);
    assert_eq!(r.err(), Some(FilterError::BadIntermediateSurfaceStatus));
}

#[test]
fn wrap_rejects_a_buffer_of_the_wrong_size() {
    let short = BackendSurface::new(3, 2, gradient(3, 1));
    assert!(short.is_in_error_state());
    let r = SharedImageSurface::wrap(short, SurfaceType::SRgb);
    assert_eq!(r.err(), Some(FilterError::BadIntermediateSurfaceStatus));
    let good = BackendSurface::new(3, 2, gradient(3, 2));
    assert!(!good.is_in_error_state());
    assert_eq!(good.status, BackendStatus::Success);
}

#[test]
fn wrap_accepts_an_empty_surface() {
    let s = SharedImageSurface::wrap(BackendSurface::new(0, 7, Vec::new()), SurfaceType::AlphaOnly)
        .unwrap();
    assert_eq!(s.width(), 0);
    assert_eq!(s.height(), 7);
    assert!(s.is_alpha_only());
    assert!(s.pixels().is_empty());
}

#[test]
fn is_alpha_only_follows_the_type() {
    assert!(surface(1, 1, SurfaceType::AlphaOnly).is_alpha_only());
    assert!(!surface(1, 1, SurfaceType::SRgb).is_alpha_only());
    assert!(!surface(1, 1, SurfaceType::LinearRgb).is_alpha_only());
}

#[test]
fn copy_region_keeps_pixels_inside_bounds_only() {
    let s = surface(4, 3, SurfaceType::SRgb);
    let copy = s.copy_region(IRect::new(1, 1, 3, 5)).unwrap();
    assert_eq!(copy.width, 4);
    assert_eq!(copy.height, 3);
    assert_eq!(copy.status, BackendStatus::Success);
    let source = gradient(4, 3);
    for y in 0..3usize {
        for x in 0..4usize {
            let inside = (1..3).contains(&x) && y >= 1;
            let expected = if inside { source[y * 4 + x] } else { px(0, 0, 0, 0) };
            assert_eq!(copy.pixels[y * 4 + x], expected);
        }
    }
}

#[test]
fn copy_region_with_bounds_outside_the_surface_is_transparent() {
    let s = surface(2, 2, SurfaceType::SRgb);
    let copy = s.copy_region(IRect::new(-10, -10, 0, 0)).unwrap();
    assert_eq!(copy.pixels, vec![px(0, 0, 0, 0); 4]);
    let all = s.copy_region(IRect::new(-10, -10, 10, 10)).unwrap();
    assert_eq!(all.pixels, gradient(2, 2));
}

#[test]
fn copy_region_of_a_surface_without_pixels_succeeds() {
    let s = SharedImageSurface::wrap(BackendSurface::new(5, 0, Vec::new()), SurfaceType::SRgb)
        .unwrap();
    let copy = s.copy_region(IRect::new(0, 0, 5, 5)).unwrap();
    assert_eq!((copy.width, copy.height), (5, 0));
    assert!(copy.pixels.is_empty());
    assert_eq!(copy.status, BackendStatus::Success);
}

#[test]
fn copy_region_without_storage_fails() {
    let s = surface(2, 2, SurfaceType::SRgb);
    let r = s.copy_region_with(IRect::new(0, 0, 2, 2), None);
    assert_eq!(r.err(), Some(FilterError::IntermediateSurfaceCreation));
}

#[test]
fn copy_region_with_used_storage_starts_afresh() {
    let s = surface(2, 1, SurfaceType::SRgb);
    let used = vec![px(9, 9, 9, 9); 5];
    let copy = s.copy_region_with(IRect::new(0, 0, 1, 1), Some(used)).unwrap();
    assert_eq!(copy.pixels, vec![px(0, 0, 200, 255), px(0, 0, 0, 0)]);
}

#[test]
fn to_linear_rgb_maps_colour_channels_and_keeps_alpha() {
    let pixels = vec![px(0, 255, 128, 7), px(10, 188, 55, 0)];
    let s = SharedImageSurface::wrap(BackendSurface::new(2, 1, pixels), SurfaceType::SRgb).unwrap();
    let linear = s.to_linear_rgb();
    assert_eq!(linear.surface_type(), SurfaceType::LinearRgb);
    assert_eq!(linear.width(), 2);
    assert_eq!(linear.height(), 1);
    assert_eq!(linear.pixels(), &vec![px(0, 255, 55, 7), px(1, 128, 10, 0)]);
}

#[test]
fn to_srgb_maps_colour_channels_and_keeps_alpha() {
    let pixels = vec![px(0, 255, 55, 7), px(1, 128, 10, 0)];
    let s = SharedImageSurface::wrap(BackendSurface::new(1, 2, pixels), SurfaceType::LinearRgb)
        .unwrap();
    let encoded = s.to_srgb();
    assert_eq!(encoded.surface_type(), SurfaceType::SRgb);
    assert_eq!(encoded.pixels(), &vec![px(0, 255, 128, 7), px(13, 188, 56, 0)]);
}

#[test]
fn conversions_are_identity_in_the_target_space_and_on_alpha_only() {
    for (ty, linear) in [
        (SurfaceType::LinearRgb, true),
        (SurfaceType::AlphaOnly, true),
        (SurfaceType::SRgb, false),
        (SurfaceType::AlphaOnly, false),
    ] {
        let s = surface(3, 3, ty);
        let converted = if linear { s.to_linear_rgb() } else { s.to_srgb() };
        assert_eq!(converted.surface_type(), ty);
        assert_eq!(converted.pixels(), s.pixels());
        assert_eq!(converted.width(), 3);
        assert_eq!(converted.height(), 3);
    }
}

#[test]
fn duplicate_is_the_same_surface() {
    let s = surface(3, 2, SurfaceType::SRgb);
    let d = s.duplicate();
    assert_eq!(d.pixels(), s.pixels());
    assert_eq!(d.width(), 3);
    assert_eq!(d.height(), 2);
    assert_eq!(d.surface_type(), SurfaceType::SRgb);
}
