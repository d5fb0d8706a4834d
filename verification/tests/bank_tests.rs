use pixedit::input::State;
use pixedit::sprite_bank::SpritesMap;
use pixedit::surface::Surface;

fn state_with_mouse(x: i32, y: i32, level: u32) -> State {
    let mut s = State::new();
    s.mouse_x = x;
    s.mouse_y = y;
    s.mouse_state = level;
    s
}

#[test]
fn bank_button_selects_bank() {
    let mut sm = SpritesMap::new();
    let mut surface = Surface::new();
    // bank 2's button occupies x in [218, 222)
    let mut s = state_with_mouse(219, 195, 1);
    sm.update(&mut s, &mut surface);
    assert_eq!(s.idx_map, 2);
    assert_eq!(s.current_sprite, 128);
}

#[test]
fn thumbnail_click_selects_sprite_and_origin() {
    // bank 2, then thumbnail at grid position (3, 1):
    // index 3 + 16 * 1 + 64 * 2 = 147, atlas origin (24, 72)
    let mut sm = SpritesMap::new();
    let mut surface = Surface::new();

    let mut s = state_with_mouse(219, 195, 1);
    sm.update(&mut s, &mut surface);
    assert_eq!(s.idx_map, 2);

    s.mouse_x = 3 * 8;
    s.mouse_y = 200 + 8;
    sm.update(&mut s, &mut surface);
    assert_eq!(s.current_sprite, 147);
    assert_eq!(s.x_zoom_sprite, 24);
    assert_eq!(s.y_zoom_sprite, 72);
}

#[test]
fn click_outside_grid_changes_nothing() {
    let mut sm = SpritesMap::new();
    let mut surface = Surface::new();
    let mut s = state_with_mouse(150, 100, 1);
    sm.update(&mut s, &mut surface);
    assert_eq!(s.current_sprite, 0);
    assert_eq!(s.idx_map, 0);
    assert_eq!(s.x_zoom_sprite, 0);
    assert_eq!(s.y_zoom_sprite, 0);
}

#[test]
fn released_button_keeps_selection() {
    let mut sm = SpritesMap::new();
    let mut surface = Surface::new();
    let mut s = state_with_mouse(219, 195, 1);
    sm.update(&mut s, &mut surface);
    assert_eq!(s.idx_map, 2);
    // next frame: button released, mouse elsewhere
    s.mouse_x = 0;
    s.mouse_y = 0;
    s.mouse_state = 0;
    sm.update(&mut s, &mut surface);
    assert_eq!(s.idx_map, 2);
    assert_eq!(s.current_sprite, 128);
}
