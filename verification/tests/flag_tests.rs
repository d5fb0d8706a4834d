use pixedit::flags::Flags;
use pixedit::input::State;
use pixedit::surface::Surface;

fn state_with_mouse(x: i32, y: i32, level: u32) -> State {
    let mut s = State::new();
    s.mouse_x = x;
    s.mouse_y = y;
    s.mouse_state = level;
    s
}

#[test]
fn click_sets_unset_bit_three() {
    let mut f = Flags::new();
    let mut surface = Surface::new();
    // flag bit 3 sits at screen x = 128 + 3 * 6 = 146
    let s = state_with_mouse(146, 193, 1);
    assert!(!surface.fget(0, 3));
    f.update(&s, &mut surface);
    assert!(surface.fget(0, 3));
    // the indicator color reflects the state after the toggle
    assert_eq!(f.colors[3], 11);
    // no other bit moved
    for bit in 0..8u32 {
        if bit != 3 {
            assert!(!surface.fget(0, bit), "bit {} flipped", bit);
            assert_eq!(f.colors[bit as usize], 8);
        }
    }
}

#[test]
fn held_button_flips_the_bit_every_update() {
    // toggling is level-triggered on purpose (unlike the palette canvas):
    // a button held over the bit flips it once per update cycle
    let mut f = Flags::new();
    let mut surface = Surface::new();
    let s = state_with_mouse(146, 193, 1);
    f.update(&s, &mut surface);
    assert!(surface.fget(0, 3));
    f.update(&s, &mut surface);
    assert!(!surface.fget(0, 3));
    f.update(&s, &mut surface);
    assert!(surface.fget(0, 3));
}

#[test]
fn flags_follow_the_active_sprite() {
    let mut f = Flags::new();
    let mut surface = Surface::new();
    let mut s = state_with_mouse(128, 193, 1);  // bit 0 hit box
    s.current_sprite = 147;
    s.idx_map = 2;
    f.update(&s, &mut surface);
    assert!(surface.fget(147, 0));
    assert!(!surface.fget(0, 0));
}

#[test]
fn no_click_only_refreshes_colors() {
    let mut f = Flags::new();
    let mut surface = Surface::new();
    surface.fset(0, 5, true);
    let s = state_with_mouse(0, 0, 0);
    f.update(&s, &mut surface);
    assert!(surface.fget(0, 5));
    assert_eq!(f.colors[5], 11);
    assert_eq!(f.colors[0], 8);
}
