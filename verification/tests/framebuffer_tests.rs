use solar_raster::framebuffer::{Framebuffer, FAR_DEPTH};

fn key(depth: f32) -> u32 {
    depth.to_bits()
}

#[test]
fn new_buffer_is_empty_and_far() {
    let fb = Framebuffer::new(4, 3);
    assert_eq!(fb.width, 4);
    assert_eq!(fb.height, 3);
    assert_eq!(fb.buffer.len(), 12);
    assert_eq!(fb.zbuffer.len(), 12);
    assert!(fb.buffer.iter().all(|&c| c == 0));
    assert!(fb.zbuffer.iter().all(|&d| d == FAR_DEPTH));
}

#[test]
fn far_sentinel_is_infinity_key() {
    assert_eq!(FAR_DEPTH, f32::INFINITY.to_bits());
    assert!(key(1000.0) < FAR_DEPTH);
}

#[test]
fn clear_fills_background_and_far_depth() {
    let mut fb = Framebuffer::new(4, 3);
    fb.set_background_color(0x333355);
    fb.set_current_color(0xFFFFFF);
    fb.point(1, 1, key(0.5));
    fb.clear();
    assert!(fb.buffer.iter().all(|&c| c == 0x333355));
    assert!(fb.zbuffer.iter().all(|&d| d == FAR_DEPTH));
}

#[test]
fn nearer_write_wins() {
    let mut fb = Framebuffer::new(8, 8);
    fb.set_current_color(0xAA);
    fb.point(2, 3, key(5.0));
    fb.set_current_color(0xBB);
    fb.point(2, 3, key(3.0));
    assert_eq!(fb.buffer[3 * 8 + 2], 0xBB);
    assert_eq!(fb.zbuffer[3 * 8 + 2], key(3.0));
}

#[test]
fn farther_write_is_discarded() {
    let mut fb = Framebuffer::new(8, 8);
    fb.set_current_color(0xAA);
    fb.point(2, 3, key(5.0));
    fb.set_current_color(0xCC);
    fb.point(2, 3, key(7.0));
    assert_eq!(fb.buffer[3 * 8 + 2], 0xAA);
    assert_eq!(fb.zbuffer[3 * 8 + 2], key(5.0));
}

#[test]
fn equal_depth_later_write_wins() {
    let mut fb = Framebuffer::new(8, 8);
    fb.set_current_color(0xAA);
    fb.point(4, 4, key(2.0));
    fb.set_current_color(0xDD);
    fb.point(4, 4, key(2.0));
    assert_eq!(fb.buffer[4 * 8 + 4], 0xDD);
}

#[test]
fn out_of_bounds_write_is_a_no_op() {
    let mut fb = Framebuffer::new(4, 3);
    fb.set_current_color(0xEE);
    fb.point(4, 0, key(0.1));
    fb.point(0, 3, key(0.1));
    fb.point(100, 100, key(0.1));
    assert!(fb.buffer.iter().all(|&c| c == 0));
}
