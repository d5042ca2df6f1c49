use softrender::fixed::ONE;
use softrender::framebuffer::{channel_of, Color, Framebuffer, FAR_DEPTH};
use softrender::vector::Vec3;

#[test]
fn new_framebuffer_is_black_and_far() {
    let fb = Framebuffer::new(4, 3);
    assert_eq!((fb.width(), fb.height()), (4, 3));
    assert_eq!(fb.color_buffer().len(), 12);
    assert_eq!(fb.get_pixel_color(3, 2), Some(Color::new(0, 0, 0, 255)));
    assert_eq!(fb.get_pixel_depth(0, 0), Some(FAR_DEPTH));
}

#[test]
fn nearer_write_wins() {
    let mut fb = Framebuffer::new(4, 3);
    fb.point(1, 1, 500, Vec3::new(ONE, 0, 0));
    fb.point(1, 1, 200, Vec3::new(0, ONE, 0));
    assert_eq!(fb.get_pixel_color(1, 1), Some(Color::new(0, 255, 0, 255)));
    assert_eq!(fb.get_pixel_depth(1, 1), Some(200));
}

#[test]
fn same_write_twice_is_idempotent() {
    let mut fb = Framebuffer::new(4, 3);
    fb.point(2, 1, 300, Vec3::new(ONE, 5_000, 0));
    let colors = fb.color_buffer().clone();
    let depth = fb.get_pixel_depth(2, 1);
    fb.point(2, 1, 300, Vec3::new(ONE, 5_000, 0));
    assert_eq!(fb.color_buffer(), &colors);
    assert_eq!(fb.get_pixel_depth(2, 1), depth);
    assert_eq!(fb.get_pixel_color(2, 1), Some(Color::new(255, 127, 0, 255)));
}

#[test]
fn farther_write_is_ignored() {
    let mut fb = Framebuffer::new(4, 3);
    fb.point(0, 2, 100, Vec3::new(0, 0, ONE));
    fb.point(0, 2, 101, Vec3::new(ONE, ONE, ONE));
    assert_eq!(fb.get_pixel_color(0, 2), Some(Color::new(0, 0, 255, 255)));
    assert_eq!(fb.get_pixel_depth(0, 2), Some(100));
}

#[test]
fn equal_depth_does_not_overwrite() {
    let mut fb = Framebuffer::new(2, 2);
    fb.point(0, 0, 100, Vec3::new(0, 0, ONE));
    fb.point(0, 0, 100, Vec3::new(ONE, 0, 0));
    assert_eq!(fb.get_pixel_color(0, 0), Some(Color::new(0, 0, 255, 255)));
}

#[test]
fn out_of_bounds_writes_are_dropped() {
    let mut fb = Framebuffer::new(4, 3);
    let before = fb.color_buffer().clone();
    fb.point(-1, 0, 0, Vec3::new(ONE, ONE, ONE));
    fb.point(4, 0, 0, Vec3::new(ONE, ONE, ONE));
    fb.point(0, 3, 0, Vec3::new(ONE, ONE, ONE));
    fb.set_pixel(0, -1);
    assert_eq!(fb.color_buffer(), &before);
    assert_eq!(fb.get_pixel_color(4, 0), None);
    assert_eq!(fb.get_pixel_depth(0, 3), None);
}

#[test]
fn clear_resets_to_background() {
    let mut fb = Framebuffer::new(4, 3);
    fb.set_background_color(Color::new(5, 5, 15, 255));
    fb.point(1, 1, 10, Vec3::new(ONE, ONE, ONE));
    fb.clear();
    assert!(fb.color_buffer().iter().all(|c| *c == Color::new(5, 5, 15, 255)));
    assert_eq!(fb.get_pixel_depth(1, 1), Some(FAR_DEPTH));
}

#[test]
fn set_pixel_uses_current_color_without_depth() {
    let mut fb = Framebuffer::new(4, 3);
    fb.set_current_color(Color::new(200, 200, 255, 255));
    fb.set_pixel(3, 2);
    assert_eq!(fb.get_pixel_color(3, 2), Some(Color::new(200, 200, 255, 255)));
    assert_eq!(fb.get_pixel_depth(3, 2), Some(FAR_DEPTH));
}

#[test]
fn channels_are_clamped_and_scaled() {
    assert_eq!(channel_of(-5), 0);
    assert_eq!(channel_of(0), 0);
    assert_eq!(channel_of(5_000), 127);
    assert_eq!(channel_of(ONE), 255);
    assert_eq!(channel_of(25_000), 255);
}
