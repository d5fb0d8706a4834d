//! Per-frame input snapshot and the shared editor state it feeds.

use vstd::prelude::*;

verus! {

/// Bit of the mouse level/edge masks meaning "left button".
pub const MOUSE_LEFT: u32 = 1;

/// One frame's worth of raw input, sampled once by the host before the
/// frame's update pass runs.  Every component of that pass reads this same
/// snapshot, so no torn reads can occur across the widget tree.
///
/// `mouse_state` is the level mask (true for every frame a button stays
/// held); `mouse_statep` is the edge mask (true only on the single frame a
/// button transitions to pressed).  The host guarantees the edge mask is set
/// for exactly one frame per press.
pub struct FrameInput {
    pub mouse_x: i32,
    pub mouse_y: i32,
    pub mouse_state: u32,
    pub mouse_statep: u32,
    /// Pan triggers (edge-triggered directional buttons), used by the map
    /// editor: left, right, up, down.
    pub pan_left: bool,
    pub pan_right: bool,
    pub pan_up: bool,
    pub pan_down: bool,
    /// Edge-triggered action button: cycles the zoom of the active editor.
    pub zoom_cycle: bool,
}

/// Zoom factors a sprite canvas can take, cycled in this order.
pub open spec fn spec_zoom_for_index(idx: u32) -> u32 {
    if idx == 0 {
        1
    } else if idx == 1 {
        2
    } else {
        4
    }
}

/// The sprite zoom factor selected by a cycle index, one of {1, 2, 4}.
pub fn zoom_for_index(idx: u32) -> (z: u32)
    requires
        idx < 3,
    ensures
        z == spec_zoom_for_index(idx),
{
    if idx == 0 {
        1
    } else if idx == 1 {
        2
    } else {
        4
    }
}

/// Shared editor state: the frame's input snapshot plus the selection state
/// every component reads (current sprite, its atlas origin, the sprite zoom
/// factor, the active bank).  One value of this type is threaded by
/// reference through the per-frame call chain; no component keeps a
/// long-lived handle to it.
pub struct State {
    pub mouse_x: i32,
    pub mouse_y: i32,
    pub mouse_state: u32,
    pub mouse_statep: u32,
    /// Screen y where the sprite-thumbnail grid starts.
    pub idx_sprites_batch: i32,
    /// Index of the selected sprite, in [0, 256).
    pub current_sprite: u32,
    /// Atlas origin of the zoomed editing canvas's source square.
    pub x_zoom_sprite: u32,
    pub y_zoom_sprite: u32,
    /// Sprite zoom factor, one of {1, 2, 4}; how many adjacent sprites
    /// (zoom x zoom) form one paintable unit.
    pub zoom_sprite: u32,
    /// Index into the zoom cycle, in [0, 3).
    pub idx_zoom_sprite: u32,
    /// Screen origin of the 128x128 zoomed editing canvas.
    pub idx_x_zoom_sprite: u32,
    pub idx_y_zoom_sprite: u32,
    /// Selected sprite bank, in [0, 4).
    pub idx_map: u32,
    /// Last map cell hovered, reported by the map editor.
    pub on_current_sprite_x: u32,
    pub on_current_sprite_y: u32,
    pub on_current_sprite: bool,
}

impl State {
    /// Well-formedness: every selection index is in range and the zoom
    /// factor matches its cycle index.
    pub open spec fn wf(self) -> bool {
        &&& self.idx_sprites_batch == 200
        &&& self.current_sprite < 256
        &&& self.idx_map < 4
        &&& 64 * self.idx_map <= self.current_sprite < 64 * self.idx_map + 64
        &&& self.idx_zoom_sprite < 3
        &&& self.zoom_sprite == spec_zoom_for_index(self.idx_zoom_sprite)
        &&& self.x_zoom_sprite <= 120 && self.x_zoom_sprite % 8 == 0
        &&& self.y_zoom_sprite <= 120 && self.y_zoom_sprite % 8 == 0
        &&& self.idx_x_zoom_sprite == 10
        &&& self.idx_y_zoom_sprite == 10
    }

    pub fn new() -> (s: State)
        ensures
            s.wf(),
            s.mouse_x == 0 && s.mouse_y == 0,
            s.mouse_state == 0 && s.mouse_statep == 0,
            s.current_sprite == 0,
            s.idx_map == 0,
            s.zoom_sprite == 1 && s.idx_zoom_sprite == 0,
            s.x_zoom_sprite == 0 && s.y_zoom_sprite == 0,
            s.on_current_sprite == false,
    {
        State {
            mouse_x: 0,
            mouse_y: 0,
            mouse_state: 0,
            mouse_statep: 0,
            idx_sprites_batch: 200,
            current_sprite: 0,
            x_zoom_sprite: 0,
            y_zoom_sprite: 0,
            zoom_sprite: 1,
            idx_zoom_sprite: 0,
            idx_x_zoom_sprite: 10,
            idx_y_zoom_sprite: 10,
            idx_map: 0,
            on_current_sprite_x: 0,
            on_current_sprite_y: 0,
            on_current_sprite: false,
        }
    }

    /// Refresh the snapshot fields from this frame's input.  Called exactly
    /// once per frame, before any component reads the state; everything but
    /// the four mouse fields is left untouched.
    pub fn update(&mut self, input: &FrameInput)
        ensures
            *final(self) == (State {
                mouse_x: input.mouse_x,
                mouse_y: input.mouse_y,
                mouse_state: input.mouse_state,
                mouse_statep: input.mouse_statep,
                ..*old(self)
            }),
            old(self).wf() ==> final(self).wf(),
    {
        self.mouse_x = input.mouse_x;
        self.mouse_y = input.mouse_y;
        self.mouse_state = input.mouse_state;
        self.mouse_statep = input.mouse_statep;
    }
}

} // verus!
