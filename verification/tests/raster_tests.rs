use solar_raster::raster::{triangle_fragments, Fragment, ScreenPoint};

fn p(x: i32, y: i32) -> ScreenPoint {
    ScreenPoint { x, y }
}

#[test]
fn right_triangle_covers_expected_pixels() {
    // Vertices (0,0), (10,0), (0,10): covered pixels are exactly those with
    // x >= 0, y >= 0 and x + y <= 10, all barycentric weights in [0, 1].
    let frags = triangle_fragments(p(0, 0), p(10, 0), p(0, 10), 20, 20);
    let mut expected = 0;
    for y in 0..=10 {
        for x in 0..=10 {
            if x + y <= 10 {
                expected += 1;
            }
        }
    }
    assert_eq!(frags.len(), expected);
    for f in &frags {
        assert!(f.x + f.y <= 10);
    }
    assert!(frags.iter().any(|f| f.x == 0 && f.y == 0));
    assert!(frags.iter().any(|f| f.x == 10 && f.y == 0));
    assert!(frags.iter().any(|f| f.x == 0 && f.y == 10));
    assert!(frags.iter().any(|f| f.x == 3 && f.y == 4));
    assert!(!frags.iter().any(|f| f.x == 6 && f.y == 5));
}

#[test]
fn weights_are_exact_barycentrics() {
    let frags = triangle_fragments(p(0, 0), p(10, 0), p(0, 10), 20, 20);
    for f in &frags {
        assert_eq!(f.area, 100);
        assert_eq!(f.w1, 10 * f.x as i64);
        assert_eq!(f.w2, 10 * f.y as i64);
        assert_eq!(f.w0 + f.w1 + f.w2, f.area);
        for w in [f.w0, f.w1, f.w2] {
            assert!(0 <= w && w <= f.area);
        }
    }
}

#[test]
fn degenerate_triangle_yields_no_fragments() {
    let frags = triangle_fragments(p(0, 0), p(5, 5), p(10, 10), 20, 20);
    assert!(frags.is_empty());
    let frags = triangle_fragments(p(3, 4), p(3, 4), p(3, 4), 20, 20);
    assert!(frags.is_empty());
}

#[test]
fn flipped_orientation_covers_the_same_pixels() {
    let a: Vec<(usize, usize)> =
        triangle_fragments(p(0, 0), p(10, 0), p(0, 10), 20, 20).iter().map(|f| (f.x, f.y)).collect();
    let b: Vec<(usize, usize)> =
        triangle_fragments(p(0, 0), p(0, 10), p(10, 0), 20, 20).iter().map(|f| (f.x, f.y)).collect();
    assert_eq!(a, b);
}

#[test]
fn fragments_are_clipped_to_the_target() {
    let frags = triangle_fragments(p(-5, -5), p(30, -5), p(-5, 30), 5, 4);
    for f in &frags {
        assert!(f.x < 5 && f.y < 4);
    }
    // The triangle covers the whole 5x4 target.
    assert_eq!(frags.len(), 20);
}

#[test]
fn fragments_come_in_row_major_order_without_duplicates() {
    let frags = triangle_fragments(p(0, 0), p(10, 0), p(0, 10), 20, 20);
    let positions: Vec<(usize, usize)> = frags.iter().map(|f: &Fragment| (f.y, f.x)).collect();
    let mut sorted = positions.clone();
    sorted.sort();
    sorted.dedup();
    assert_eq!(positions, sorted);
}

#[test]
fn fully_offscreen_triangle_yields_no_fragments() {
    let frags = triangle_fragments(p(100, 100), p(110, 100), p(100, 110), 20, 20);
    assert!(frags.is_empty());
}
