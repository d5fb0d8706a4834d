use pixedit::draw::DrawCmd;
use pixedit::editor::Editor;
use pixedit::editor::EditorState;
use pixedit::input::FrameInput;
use pixedit::surface::Surface;

fn no_input() -> FrameInput {
    FrameInput {
        mouse_x: 0,
        mouse_y: 0,
        mouse_state: 0,
        mouse_statep: 0,
        pan_left: false,
        pan_right: false,
        pan_up: false,
        pan_down: false,
        zoom_cycle: false,
    }
}

fn click_at(x: i32, y: i32) -> FrameInput {
    let mut i = no_input();
    i.mouse_x = x;
    i.mouse_y = y;
    i.mouse_state = 1;
    i.mouse_statep = 1;
    i
}

#[test]
fn starts_in_sprite_mode_with_requested_display() {
    let e = Editor::new();
    assert_eq!(e.state_editor, EditorState::SpriteEditing);
    assert_eq!(e.init(), (240, 236));
}

#[test]
fn frame_starts_with_clear_then_chrome() {
    let mut e = Editor::new();
    let mut surface = Surface::new();
    let cmds = e.draw(&no_input(), &mut surface);
    assert!(matches!(cmds[0], DrawCmd::Cls));
    for k in 1..6 {
        assert!(matches!(cmds[k], DrawCmd::RectFill { .. }), "command {} is not chrome", k);
    }
    // a sprite-editing frame always emits the same number of commands:
    // clear, 5 chrome fills, 83 for the bank, 18 for the sprite editor and
    // 48 pixels per mode widget
    assert_eq!(cmds.len(), 203);
    // and in the order of the frame: bank thumbnails after the chrome,
    // palette swatches after the bank, widget glyphs last
    assert!(matches!(cmds[6], DrawCmd::Sprite { index: 0, x: 0, y: 200 }));
    assert!(matches!(cmds[88], DrawCmd::Num { value: 0, x: 64, y: 191, color: 7 }));
    assert!(matches!(cmds[89], DrawCmd::RectFill { x1: 192, y1: 16, color: 0, .. }));
    assert!(matches!(cmds[106], DrawCmd::StretchBlit { dst_w: 128, dst_h: 128, .. }));
    assert!(matches!(cmds[107], DrawCmd::Pset { x: 222, y: 1, .. }));
    assert!(matches!(cmds[155], DrawCmd::Pset { x: 231, y: 1, .. }));
}

#[test]
fn map_frame_draw_order() {
    let mut e = Editor::new();
    let mut surface = Surface::new();
    surface.mset(2, 1, 9);
    e.draw(&click_at(233, 4), &mut surface);  // switch to map editing
    let cmds = e.draw(&no_input(), &mut surface);
    // clear, 5 chrome fills, 83 for the bank, then the map editor's canvas
    // clear, one blit for the one non-empty cell, highlight and cell text,
    // then the two widget glyphs
    assert_eq!(cmds.len(), 189);
    assert!(matches!(cmds[89], DrawCmd::RectFill { x1: 0, y1: 8, x2: 240, y2: 190, color: 0 }));
    assert!(matches!(cmds[90], DrawCmd::StretchBlit { dst_x: 16, dst_y: 17, .. }));
    assert!(matches!(cmds[91], DrawCmd::RectOutline { color: 7, .. }));
    assert!(matches!(cmds[92], DrawCmd::NumPair { .. }));
    assert!(matches!(cmds[93], DrawCmd::Pset { x: 222, y: 1, .. }));
}

#[test]
fn map_widget_switches_mode_and_reloads_cache() {
    let mut e = Editor::new();
    let mut surface = Surface::new();
    surface.mset(12, 3, 99);

    // click inside the MAP glyph at (231..239, 1..7)
    let cmds = e.draw(&click_at(233, 4), &mut surface);
    assert_eq!(e.state_editor, EditorState::MapEditing);
    assert_eq!(e.me.cache[12 + 3 * 128], 99);
    assert!(!cmds.is_empty());
}

#[test]
fn sprites_widget_switches_back_without_reload() {
    let mut e = Editor::new();
    let mut surface = Surface::new();
    e.draw(&click_at(233, 4), &mut surface);
    assert_eq!(e.state_editor, EditorState::MapEditing);

    // storage changes behind the editor's back; switching to sprites must
    // not touch the cache
    surface.mset(0, 0, 77);
    e.draw(&click_at(224, 4), &mut surface);
    assert_eq!(e.state_editor, EditorState::SpriteEditing);
    assert_eq!(e.me.cache[0], 0);
}

#[test]
fn unrelated_click_keeps_mode() {
    let mut e = Editor::new();
    let mut surface = Surface::new();
    e.draw(&click_at(100, 100), &mut surface);
    assert_eq!(e.state_editor, EditorState::SpriteEditing);
}

#[test]
fn sprite_zoom_cycle_is_circular() {
    let mut e = Editor::new();
    let mut surface = Surface::new();
    let mut i = no_input();
    i.zoom_cycle = true;
    let mut seen = Vec::new();
    for _ in 0..6 {
        e.draw(&i, &mut surface);
        seen.push(e.state.zoom_sprite);
    }
    assert_eq!(seen, vec![2, 4, 1, 2, 4, 1]);
}

#[test]
fn full_frame_bank_then_thumbnail_then_paint() {
    let mut e = Editor::new();
    let mut surface = Surface::new();

    // frame 1: select bank 2
    e.draw(&click_at(219, 195), &mut surface);
    assert_eq!(e.state.idx_map, 2);

    // frame 2: thumbnail (3, 1) -> sprite 147
    e.draw(&click_at(24, 208), &mut surface);
    assert_eq!(e.state.current_sprite, 147);

    // frame 3: switch to map mode
    e.draw(&click_at(233, 4), &mut surface);
    assert_eq!(e.state_editor, EditorState::MapEditing);

    // frame 4: paint cell (3, 2) with sprite 147
    e.draw(&click_at(24, 24), &mut surface);
    assert_eq!(surface.mget(3, 2), 147);
    assert_eq!(e.me.cache[3 + 2 * 128], 147);
}
