use solar_raster::color::Color;

#[test]
fn new_and_channels() {
    let c = Color::new(12, 34, 56);
    assert_eq!(c.r(), 12);
    assert_eq!(c.g(), 34);
    assert_eq!(c.b(), 56);
}

#[test]
fn black_is_black() {
    let b = Color::black();
    assert!(b.is_black());
    assert_eq!(b, Color::new(0, 0, 0));
    assert!(!Color::new(0, 0, 1).is_black());
}

#[test]
fn from_hex_extracts_channels() {
    let c = Color::from_hex(0x123456);
    assert_eq!(c, Color::new(0x12, 0x34, 0x56));
}

#[test]
fn from_hex_ignores_high_bits() {
    let c = Color::from_hex(0xFF123456);
    assert_eq!(c, Color::new(0x12, 0x34, 0x56));
}

#[test]
fn to_hex_packs_channels() {
    assert_eq!(Color::new(0x12, 0x34, 0x56).to_hex(), 0x123456);
    assert_eq!(Color::black().to_hex(), 0);
    assert_eq!(Color::new(255, 255, 255).to_hex(), 0xFFFFFF);
}

#[test]
fn hex_round_trip() {
    for &(r, g, b) in &[(0u8, 0u8, 0u8), (255, 255, 255), (1, 2, 3), (254, 0, 128), (0x33, 0x33, 0x55)] {
        let c = Color::new(r, g, b);
        assert_eq!(Color::from_hex(c.to_hex()), c);
    }
}

#[test]
fn blend_add_saturates() {
    let a = Color::new(200, 10, 255);
    let b = Color::new(100, 20, 1);
    assert_eq!(a.blend_add(&b), Color::new(255, 30, 255));
    let full = Color::new(255, 255, 255);
    assert_eq!(full.blend_add(&full), full);
}

#[test]
fn blend_subtract_floors() {
    let a = Color::new(10, 200, 0);
    let b = Color::new(20, 100, 5);
    assert_eq!(a.blend_subtract(&b), Color::new(0, 100, 0));
    let z = Color::black();
    assert_eq!(z.blend_subtract(&Color::new(255, 255, 255)), z);
}

#[test]
fn blend_multiply_scales() {
    let a = Color::new(128, 255, 0);
    let b = Color::new(128, 128, 77);
    assert_eq!(a.blend_multiply(&b), Color::new(64, 128, 0));
    let full = Color::new(255, 255, 255);
    assert_eq!(full.blend_multiply(&full), full);
}

#[test]
fn blend_screen_brightens() {
    let a = Color::new(128, 0, 255);
    let b = Color::new(128, 0, 0);
    assert_eq!(a.blend_screen(&b), Color::new(192, 0, 255));
    assert_eq!(Color::black().blend_screen(&Color::black()), Color::black());
}

#[test]
fn blend_normal_black_sentinel() {
    let base = Color::new(10, 20, 30);
    assert_eq!(base.blend_normal(&Color::black()), base);
    let over = Color::new(1, 2, 3);
    assert_eq!(base.blend_normal(&over), over);
}
