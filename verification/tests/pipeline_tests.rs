use solar_raster::assembly::assemble_triangles;
use solar_raster::camera::{camera_actions, CameraAction, ChangeFlag, InputState};
use solar_raster::color::Color;
use solar_raster::framebuffer::Framebuffer;
use solar_raster::raster::{triangle_fragments, ScreenPoint};

#[test]
fn assembly_groups_triples_and_drops_the_tail() {
    let vertices: Vec<u32> = vec![1, 2, 3, 4, 5, 6, 7];
    let tris = assemble_triangles(&vertices);
    assert_eq!(tris, vec![(1, 2, 3), (4, 5, 6)]);
    let empty: Vec<u32> = vec![];
    assert!(assemble_triangles(&empty).is_empty());
    let two: Vec<u32> = vec![1, 2];
    assert!(assemble_triangles(&two).is_empty());
}

#[test]
fn change_flag_reports_once() {
    let mut flag = ChangeFlag::new();
    assert!(flag.check_if_changed());
    assert!(!flag.check_if_changed());
    flag.mark_changed();
    assert!(flag.check_if_changed());
    assert!(!flag.check_if_changed());
    flag.mark_changed();
    flag.mark_changed();
    assert!(flag.check_if_changed());
    assert!(!flag.check_if_changed());
}

fn keys(f: impl Fn(&mut InputState)) -> InputState {
    let mut i = InputState {
        up: false,
        down: false,
        w: false,
        a: false,
        s: false,
        d: false,
        q: false,
        e: false,
        zoom_in: false,
        zoom_out: false,
        bird_eye: false,
    };
    f(&mut i);
    i
}

#[test]
fn no_keys_no_actions() {
    let actions = camera_actions(&keys(|_| {}));
    assert!(actions.is_empty());
}

#[test]
fn actions_come_in_frame_order() {
    let input = keys(|i| {
        i.up = true;
        i.w = true;
        i.q = true;
        i.zoom_in = true;
        i.bird_eye = true;
    });
    assert_eq!(
        camera_actions(&input),
        vec![
            CameraAction::PitchUp,
            CameraAction::MoveCenter { x_steps: 0, z_steps: -1 },
            CameraAction::MoveUp,
            CameraAction::ZoomIn,
            CameraAction::BirdEyeView,
        ]
    );
}

#[test]
fn opposed_pan_keys_cancel() {
    let input = keys(|i| {
        i.w = true;
        i.s = true;
        i.a = true;
        i.d = true;
    });
    assert!(camera_actions(&input).is_empty());
    let input = keys(|i| {
        i.a = true;
        i.s = true;
    });
    assert_eq!(
        camera_actions(&input),
        vec![CameraAction::MoveCenter { x_steps: -1, z_steps: 1 }]
    );
}

#[test]
fn down_and_zoom_out_map_to_their_actions() {
    let input = keys(|i| {
        i.down = true;
        i.e = true;
        i.zoom_out = true;
    });
    assert_eq!(
        camera_actions(&input),
        vec![CameraAction::PitchDown, CameraAction::MoveDown, CameraAction::ZoomOut]
    );
}

/// Drives the verified stages end to end the way a frame does: assemble a
/// one-triangle mesh, rasterize it, interpolate depth from the exact weights,
/// and depth-test the writes into the framebuffer.
#[test]
fn one_triangle_lands_in_the_framebuffer() {
    let background = 0x333355;
    let mut fb = Framebuffer::new(16, 16);
    fb.set_background_color(background);
    fb.clear();

    // One screen-space triangle with per-vertex depth.
    let mesh: Vec<(ScreenPoint, f32)> = vec![
        (ScreenPoint { x: 1, y: 1 }, 0.25),
        (ScreenPoint { x: 9, y: 1 }, 0.50),
        (ScreenPoint { x: 1, y: 9 }, 0.75),
    ];
    let tris = assemble_triangles(&mesh);
    assert_eq!(tris.len(), 1);
    let (v0, v1, v2) = tris[0];
    let color = Color::new(0xAB, 0xCD, 0xEF);
    fb.set_current_color(color.to_hex());
    let frags = triangle_fragments(v0.0, v1.0, v2.0, fb.width, fb.height);
    assert!(!frags.is_empty());
    for f in &frags {
        let area = f.area as f32;
        let depth = (f.w0 as f32 * v0.1 + f.w1 as f32 * v1.1 + f.w2 as f32 * v2.1) / area;
        fb.point(f.x, f.y, depth.to_bits());
    }

    // The vertex pixel (1,1) carries the first vertex's exact depth.
    assert_eq!(fb.buffer[1 * 16 + 1], color.to_hex());
    assert_eq!(fb.zbuffer[1 * 16 + 1], 0.25f32.to_bits());
    // An interior pixel was shaded; a far corner stayed background.
    assert_eq!(fb.buffer[3 * 16 + 3], color.to_hex());
    assert_eq!(fb.buffer[15 * 16 + 15], background);
}
