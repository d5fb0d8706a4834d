use pixedit::input::State;
use pixedit::palette::PalettePicker;
use pixedit::surface::Surface;

fn state_with_mouse(x: i32, y: i32, level: u32, edge: u32) -> State {
    let mut s = State::new();
    s.mouse_x = x;
    s.mouse_y = y;
    s.mouse_state = level;
    s.mouse_statep = edge;
    s
}

#[test]
fn edge_click_paints_exactly_one_pixel() {
    let mut p = PalettePicker::new();
    let mut surface = Surface::new();

    // pick color 5: swatch column 1, row 1, at (192 + 8, 16 + 8)
    let pick = state_with_mouse(200, 24, 1, 1);
    p.update(&pick, &mut surface);
    assert_eq!(p.current_color, 5);
    assert_eq!(p.current_selection_x, 1);
    assert_eq!(p.current_selection_y, 1);

    // edge frame inside the canvas: canvas origin (10, 10), zoom 1,
    // click at (26, 42) -> atlas pixel (1, 2) of sprite 0
    let press = state_with_mouse(26, 42, 1, 1);
    p.update(&press, &mut surface);
    assert_eq!(surface.sget(1, 2), 5);
    assert_eq!(surface.sget(0, 0), 0);
}

#[test]
fn held_button_does_not_smear() {
    let mut p = PalettePicker::new();
    let mut surface = Surface::new();

    let pick = state_with_mouse(200, 24, 1, 1);
    p.update(&pick, &mut surface);
    let color = p.current_color;

    // frame 1: edge fires, paints
    let press = state_with_mouse(26, 42, 1, 1);
    p.update(&press, &mut surface);
    assert_eq!(surface.sget(1, 2), color);

    // frames 2..5: button held (level set, edge clear) moving over the
    // canvas: nothing else is painted
    for x in 27..31 {
        let held = state_with_mouse(x, 58, 1, 0);
        p.update(&held, &mut surface);
    }
    assert_eq!(surface.sget(1, 3), 0);
    for x in 0..8u32 {
        for y in 0..8u32 {
            if (x, y) != (1, 2) {
                assert_eq!(surface.sget(x, y), 0, "pixel ({}, {}) painted", x, y);
            }
        }
    }
}

#[test]
fn swatch_grid_maps_click_to_color() {
    let mut surface = Surface::new();
    for (mx, my, want) in [(192, 16, 0u32), (199, 16, 0), (224 - 1, 16, 3), (192, 47, 12), (223, 47, 15)] {
        let mut p = PalettePicker::new();
        let s = state_with_mouse(mx, my, 1, 1);
        p.update(&s, &mut surface);
        assert_eq!(p.current_color, want, "click at ({}, {})", mx, my);
    }
}

#[test]
fn paint_respects_zoom_origin() {
    let mut p = PalettePicker::new();
    let mut surface = Surface::new();

    // pick color 9 (column 1, row 2)
    let pick = state_with_mouse(200, 32, 1, 1);
    p.update(&pick, &mut surface);
    assert_eq!(p.current_color, 9);

    // zoom 2 over sprite at atlas origin (24, 72): a click 64 pixels into
    // the canvas lands on atlas offset 64 * 2 / 16 = 8
    let mut s = state_with_mouse(10 + 64, 10 + 64, 1, 1);
    s.x_zoom_sprite = 24;
    s.y_zoom_sprite = 72;
    s.zoom_sprite = 2;
    s.idx_zoom_sprite = 1;
    p.update(&s, &mut surface);
    assert_eq!(surface.sget(32, 80), 9);
}
