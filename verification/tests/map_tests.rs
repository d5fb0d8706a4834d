use pixedit::draw::DrawCmd;
use pixedit::input::FrameInput;
use pixedit::input::State;
use pixedit::map_editor::MapEditor;
use pixedit::surface::Surface;

fn no_input() -> FrameInput {
    FrameInput {
        mouse_x: 0,
        mouse_y: 0,
        mouse_state: 0,
        mouse_statep: 0,
        pan_left: false,
        pan_right: false,
        pan_up: false,
        pan_down: false,
        zoom_cycle: false,
    }
}

#[test]
fn pan_left_clamps_at_zero() {
    let mut me = MapEditor::new();
    let mut surface = Surface::new();
    let state = State::new();
    let mut input = no_input();
    input.pan_left = true;
    input.pan_up = true;
    me.update(&input, &state, &mut surface);
    assert_eq!(me.offset_x, 0);
    assert_eq!(me.offset_y, 0);
}

#[test]
fn pan_right_clamps_at_zoom_limit() {
    let mut me = MapEditor::new();
    let mut surface = Surface::new();
    let state = State::new();
    let mut input = no_input();
    input.pan_right = true;
    input.pan_down = true;
    for _ in 0..40 {
        me.update(&input, &state, &mut surface);
        assert!(me.offset_x < 128, "offset_x exposes cells right of the grid");
        assert!(me.offset_y < 32, "offset_y exposes cells below the grid");
    }
    // at zoom 1 the clamp is (128 - 24) * 1 = 104 and (32 - 16) * 1 = 16
    assert_eq!(me.offset_x, 104);
    assert_eq!(me.offset_y, 16);
}

#[test]
fn pan_limits_shrink_with_zoom() {
    // at zoom 1/2 the limits are floor((128 - 24 * 0.5) * 0.5) = 58 and
    // floor((32 - 16 * 0.5) * 0.5) = 12; at 1/4 they are 30 and 7
    for (cycles, want_x, want_y) in [(1, 58, 12), (2, 30, 7)] {
        let mut me = MapEditor::new();
        let mut surface = Surface::new();
        let state = State::new();
        let mut zoom = no_input();
        zoom.zoom_cycle = true;
        for _ in 0..cycles {
            me.update(&zoom, &state, &mut surface);
        }
        let mut pan = no_input();
        pan.pan_right = true;
        pan.pan_down = true;
        for _ in 0..40 {
            me.update(&pan, &state, &mut surface);
        }
        assert_eq!(me.offset_x, want_x);
        assert_eq!(me.offset_y, want_y);
    }
}

#[test]
fn draw_clips_viewport_to_grid_and_skips_empty_cells() {
    let mut me = MapEditor::new();
    let mut surface = Surface::new();
    surface.mset(0, 0, 3);
    surface.mset(5, 2, 147);
    me.init(&surface);

    let state = State::new();
    let mut cmds: Vec<DrawCmd> = Vec::new();
    me.draw(&state, &mut cmds);
    // clear + two blits + selection outline + cell coordinates
    assert_eq!(cmds.len(), 5);
    assert!(matches!(cmds[0], DrawCmd::RectFill { color: 0, .. }));
    match &cmds[2] {
        DrawCmd::StretchBlit { src_x, src_y, dst_x, dst_y, dst_w, dst_h, .. } => {
            // sprite 147 has atlas origin (24, 72); cell (5, 2) lands at
            // (40, 16 + 9) at zoom 1 with 8-pixel cells
            assert_eq!((*src_x, *src_y), (24, 72));
            assert_eq!((*dst_x, *dst_y), (40, 25));
            assert_eq!((*dst_w, *dst_h), (8, 8));
        }
        other => panic!("expected a blit, got {:?}", other),
    }
    assert!(matches!(cmds[3], DrawCmd::RectOutline { color: 7, .. }));
    assert!(matches!(cmds[4], DrawCmd::NumPair { .. }));
}

#[test]
fn map_zoom_cycles_denominators() {
    let mut me = MapEditor::new();
    let mut surface = Surface::new();
    let state = State::new();
    let mut input = no_input();
    input.zoom_cycle = true;
    assert_eq!((me.zoom_denom, me.size_sprite), (1, 8));
    me.update(&input, &state, &mut surface);
    assert_eq!((me.zoom_denom, me.size_sprite), (2, 4));
    me.update(&input, &state, &mut surface);
    assert_eq!((me.zoom_denom, me.size_sprite), (4, 2));
    me.update(&input, &state, &mut surface);
    assert_eq!((me.zoom_denom, me.size_sprite), (1, 8));
}

#[test]
fn paint_writes_cache_and_storage_in_lockstep() {
    let mut me = MapEditor::new();
    let mut surface = Surface::new();
    me.init(&surface);

    let mut state = State::new();
    state.current_sprite = 7;
    // cell (3, 2) at zoom 1: mouse x = 3 * 8, y = 8 + 2 * 8
    state.mouse_x = 24;
    state.mouse_y = 24;
    state.mouse_state = 1;
    me.update(&no_input(), &state, &mut surface);

    assert_eq!(surface.mget(3, 2), 7);
    assert_eq!(me.cache[3 + 2 * 128], 7);
    // neighbours untouched
    assert_eq!(surface.mget(4, 2), 0);
    assert_eq!(surface.mget(3, 3), 0);
}

#[test]
fn sprite_zoom_paints_a_four_by_four_block() {
    let mut me = MapEditor::new();
    let mut surface = Surface::new();
    me.init(&surface);

    let mut state = State::new();
    let base = 1u32;
    state.current_sprite = base;
    state.zoom_sprite = 4;
    state.idx_zoom_sprite = 2;
    // cell (10, 5) at map zoom 1: mouse x = 10 * 8, y = 8 + 5 * 8
    state.mouse_x = 80;
    state.mouse_y = 48;
    state.mouse_state = 1;
    me.update(&no_input(), &state, &mut surface);

    for dy in 0..4u32 {
        for dx in 0..4u32 {
            let want = base + dx + dy * 16;
            assert_eq!(surface.mget(10 + dx, 5 + dy), want, "cell ({}, {})", 10 + dx, 5 + dy);
            assert_eq!(me.cache[(10 + dx + (5 + dy) * 128) as usize], want);
        }
    }
    assert_eq!(surface.mget(14, 5), 0);
    assert_eq!(surface.mget(10, 9), 0);
}

#[test]
fn hover_tracks_cell_under_mouse() {
    let mut me = MapEditor::new();
    let mut surface = Surface::new();
    let mut state = State::new();
    state.mouse_x = 47;
    state.mouse_y = 30;
    me.update(&no_input(), &state, &mut surface);
    // snapped to (40, 24); cell = (40 / 8, (24 - 8) / 8) = (5, 2)
    assert_eq!(me.select_x, 40);
    assert_eq!(me.select_y, 24);
    assert_eq!(me.current_sprite_x, 5);
    assert_eq!(me.current_sprite_y, 2);
}

#[test]
fn init_reloads_cache_from_storage() {
    let mut me = MapEditor::new();
    let mut surface = Surface::new();
    surface.mset(0, 0, 42);
    surface.mset(127, 31, 9);
    me.init(&surface);
    assert_eq!(me.cache[0], 42);
    assert_eq!(me.cache[127 + 31 * 128], 9);
    assert_eq!(me.cache[1], 0);
}
