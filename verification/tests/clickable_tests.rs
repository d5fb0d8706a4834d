use pixedit::clickable::Button;
use pixedit::clickable::Widget;
use pixedit::clickable::WidgetKind;
use pixedit::draw::DrawCmd;
use pixedit::input::State;
use pixedit::palette::PalettePicker;

#[test]
fn button_hit_is_recomputed_each_update() {
    let mut b = Button::new(208, 191, 212, 199, 2, "1".to_string(), false);
    assert!(!b.is_click());
    b.update(210, 195);
    assert!(b.is_click());
    b.update(0, 0);
    assert!(!b.is_click());
}

#[test]
fn highlighted_button_starts_clicked() {
    let b = Button::new(208, 191, 212, 199, 2, "1".to_string(), true);
    assert!(b.is_click());
}

#[test]
fn button_draw_emits_fill_then_label() {
    let mut b = Button::new(208, 191, 212, 199, 2, "1".to_string(), false);
    b.update(210, 195);
    let mut cmds: Vec<DrawCmd> = Vec::new();
    b.draw(&mut cmds);
    assert_eq!(cmds.len(), 2);
    match &cmds[0] {
        DrawCmd::RectFill { x1, y1, x2, y2, color } => {
            assert_eq!((*x1, *y1, *x2, *y2, *color), (208, 191, 212, 199, 2));
        }
        other => panic!("expected a fill, got {:?}", other),
    }
    match &cmds[1] {
        DrawCmd::Text { text, x, y, color } => {
            assert_eq!(text, "1");
            assert_eq!((*x, *y), (209, 191));
            // highlighted label while the button reports a hit
            assert_eq!(*color, 1);
        }
        other => panic!("expected a label, got {:?}", other),
    }
}

#[test]
fn widget_hit_is_level_triggered() {
    let mut w = Widget::new(WidgetKind::Sprites, 222, 1, 8, 6, vec![0; 48]);
    let mut s = State::new();
    s.mouse_x = 225;
    s.mouse_y = 3;
    s.mouse_state = 1;
    s.mouse_statep = 0;  // no edge: level alone suffices
    w.update(&s);
    assert!(w.is_click());
    s.mouse_state = 0;
    w.update(&s);
    assert!(!w.is_click());
}

#[test]
fn widget_draw_emits_its_glyph() {
    let data: Vec<u8> = (0..48).map(|i| (i % 12) as u8).collect();
    let w = Widget::new(WidgetKind::MapSheet, 231, 1, 8, 6, data.clone());
    let mut cmds: Vec<DrawCmd> = Vec::new();
    w.draw(&mut cmds);
    assert_eq!(cmds.len(), 48);
    for (k, cmd) in cmds.iter().enumerate() {
        match cmd {
            DrawCmd::Pset { x, y, color } => {
                assert_eq!(*x, 231 + (k as i32) % 8);
                assert_eq!(*y, 1 + (k as i32) / 8);
                assert_eq!(*color, data[k] as i32);
            }
            other => panic!("expected a pixel, got {:?}", other),
        }
    }
}

#[test]
fn palette_draw_emits_sixteen_swatches_and_outline() {
    let p = PalettePicker::new();
    let mut cmds: Vec<DrawCmd> = Vec::new();
    p.draw(&mut cmds);
    assert_eq!(cmds.len(), 17);
    match &cmds[0] {
        DrawCmd::RectFill { x1, y1, x2, y2, color } => {
            assert_eq!((*x1, *y1, *x2, *y2, *color), (192, 16, 199, 23, 0));
        }
        other => panic!("expected a swatch, got {:?}", other),
    }
    match &cmds[5] {
        DrawCmd::RectFill { x1, y1, color, .. } => {
            assert_eq!((*x1, *y1, *color), (200, 24, 5));
        }
        other => panic!("expected a swatch, got {:?}", other),
    }
    match &cmds[16] {
        DrawCmd::RectOutline { x1, y1, x2, y2, color } => {
            assert_eq!((*x1, *y1, *x2, *y2, *color), (191, 15, 200, 24, 7));
        }
        other => panic!("expected the selection outline, got {:?}", other),
    }
}
