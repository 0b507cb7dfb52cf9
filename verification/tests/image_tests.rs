use loki::frame::PixelFormat;
use loki::image_utils::{bgra_to_rgba, ensure_image_rgba};

#[test]
fn bgra_pixels_swap_blue_and_red() {
    let mut bytes = vec![1, 2, 3, 4, 5, 6, 7, 8];
    bgra_to_rgba(&mut bytes);
    assert_eq!(bytes, vec![3, 2, 1, 4, 7, 6, 5, 8]);
}

#[test]
fn ragged_tail_is_left_untouched() {
    let mut bytes = vec![1, 2, 3, 4, 9, 9, 9];
    bgra_to_rgba(&mut bytes);
    assert_eq!(bytes, vec![3, 2, 1, 4, 9, 9, 9]);
}

#[test]
fn swapping_twice_restores_the_buffer() {
    let original: Vec<u8> = (0..32).collect();
    let mut bytes = original.clone();
    bgra_to_rgba(&mut bytes);
    bgra_to_rgba(&mut bytes);
    assert_eq!(bytes, original);
}

#[test]
fn ensure_rgba_converts_bgra() {
    let mut bytes = vec![10, 20, 30, 40];
    let mut format = PixelFormat::BGRA8;
    assert_eq!(ensure_image_rgba(&mut bytes, &mut format), Ok(()));
    assert_eq!(bytes, vec![30, 20, 10, 40]);
    assert_eq!(format, PixelFormat::RGBA8);
}

#[test]
fn ensure_rgba_leaves_rgba_alone() {
    let mut bytes = vec![10, 20, 30, 40];
    let mut format = PixelFormat::RGBA8;
    assert_eq!(ensure_image_rgba(&mut bytes, &mut format), Ok(()));
    assert_eq!(bytes, vec![10, 20, 30, 40]);
    assert_eq!(format, PixelFormat::RGBA8);
}
