//! Palette picker: the 16-color swatch grid and the zoomed sprite-editing
//! canvas.
//!
//! A click (edge-triggered, so one press paints exactly once however long
//! the button stays held) either paints one pixel of the active sprite, when
//! it lands in the canvas, or picks a new color, when it lands in the swatch
//! grid.  The two regions do not overlap.

use vstd::prelude::*;

use crate::draw::DrawCmd;
use crate::geom::in_rect;
use crate::geom::point_in_rect;
use crate::input::State;
use crate::input::MOUSE_LEFT;
use crate::surface::Surface;

verus! {

/// 16-color swatch grid (4x4 swatches of 8x8 pixels at (idx_x, idx_y)) plus
/// the current color selection.
pub struct PalettePicker {
    /// Screen origin of the swatch grid.
    pub idx_x: i32,
    pub idx_y: i32,
    /// Selected color, in [0, 16).
    pub current_color: u32,
    /// Column and row of the selected swatch, in [0, 4).
    pub current_selection_x: i32,
    pub current_selection_y: i32,
}

/// Canvas-local pixel coordinate of a click: the canvas shows an
/// `8 * zoom` square of atlas pixels stretched over 128 display pixels, so
/// a click `m - origin` pixels into the canvas lands on atlas offset
/// `(m - origin) * zoom / 16`.
pub open spec fn spec_canvas_px(origin: int, zoom: int, m: int) -> int {
    ((m - origin) * zoom) / 16
}

/// Does a click at (mx, my) land in the zoomed editing canvas?
pub open spec fn spec_canvas_hit(state: State, mx: int, my: int) -> bool {
    in_rect(
        mx,
        my,
        state.idx_x_zoom_sprite as int,
        state.idx_y_zoom_sprite as int,
        state.idx_x_zoom_sprite + 128,
        state.idx_y_zoom_sprite + 128,
    )
}

impl PalettePicker {
    /// The swatch grid sits at (192, 16); the selection and the selected
    /// color agree.
    pub open spec fn wf(self) -> bool {
        &&& self.idx_x == 192
        &&& self.idx_y == 16
        &&& 0 <= self.current_selection_x < 4
        &&& 0 <= self.current_selection_y < 4
        &&& self.current_color == self.current_selection_x + self.current_selection_y * 4
    }

    /// Does a click at (mx, my) land in the 4x4 swatch grid?
    pub open spec fn spec_swatch_hit(self, mx: int, my: int) -> bool {
        in_rect(mx, my, self.idx_x as int, self.idx_y as int, self.idx_x + 32, self.idx_y + 32)
    }

    pub fn new() -> (p: PalettePicker)
        ensures
            p.wf(),
            p.current_color == 0,
            p.current_selection_x == 0 && p.current_selection_y == 0,
    {
        PalettePicker {
            idx_x: 192,
            idx_y: 16,
            current_color: 0,
            current_selection_x: 0,
            current_selection_y: 0,
        }
    }

    /// The atlas pixel a click paints: the canvas-local pixel under the
    /// mouse, offset by the zoom canvas's atlas origin.
    pub open spec fn spec_paint_px(state: State) -> int {
        state.x_zoom_sprite + spec_canvas_px(
            state.idx_x_zoom_sprite as int,
            state.zoom_sprite as int,
            state.mouse_x as int,
        )
    }

    pub open spec fn spec_paint_py(state: State) -> int {
        state.y_zoom_sprite + spec_canvas_px(
            state.idx_y_zoom_sprite as int,
            state.zoom_sprite as int,
            state.mouse_y as int,
        )
    }

    /// The atlas after one frame of palette interaction: one pixel painted
    /// with the picker's color when the left edge fired inside the canvas
    /// and the target lies on the atlas, unchanged otherwise.
    pub open spec fn spec_sheet_after(p: PalettePicker, state: State, sheet: Seq<u32>) -> Seq<
        u32,
    > {
        let px = Self::spec_paint_px(state);
        let py = Self::spec_paint_py(state);
        if state.mouse_statep == MOUSE_LEFT && spec_canvas_hit(
            state,
            state.mouse_x as int,
            state.mouse_y as int,
        ) && px < 128 && py < 128 {
            sheet.update(px + py * 128, p.current_color as u32)
        } else {
            sheet
        }
    }

    /// The picker after one frame: selection and color moved to the clicked
    /// swatch when the left edge fired inside the grid, unchanged otherwise.
    pub open spec fn spec_picker_after(p: PalettePicker, state: State) -> PalettePicker {
        let ix = (state.mouse_x - p.idx_x) / 8;
        let iy = (state.mouse_y - p.idx_y) / 8;
        if state.mouse_statep == MOUSE_LEFT && p.spec_swatch_hit(
            state.mouse_x as int,
            state.mouse_y as int,
        ) {
            PalettePicker {
                current_color: (ix + iy * 4) as u32,
                current_selection_x: ix as i32,
                current_selection_y: iy as i32,
                ..p
            }
        } else {
            p
        }
    }

    /// One frame's worth of palette interaction.  Acts only on the frame
    /// the left button's edge fires; a held button changes nothing, so a
    /// press that stays inside the canvas paints at most once.
    ///
    /// On an edge inside the canvas, the pixel of the active sprite under
    /// the click is painted with the selected color (a target that falls
    /// off the atlas edge is a no-op).  On an edge inside the swatch grid,
    /// the selection and current color move to the clicked swatch.
    pub fn update(&mut self, state: &State, surface: &mut Surface)
        requires
            old(self).wf(),
            state.wf(),
            old(surface).wf(),
        ensures
            final(self).wf(),
            final(surface).wf(),
            final(surface).flags@ == old(surface).flags@,
            final(surface).map@ == old(surface).map@,
            final(surface).sheet@ == Self::spec_sheet_after(
                *old(self),
                *state,
                old(surface).sheet@,
            ),
            *final(self) == Self::spec_picker_after(*old(self), *state),
    {
        if state.mouse_statep == MOUSE_LEFT {
            let mouse_x = state.mouse_x;
            let mouse_y = state.mouse_y;
            let idx_x_zoom_sprite = state.idx_x_zoom_sprite;
            let idx_y_zoom_sprite = state.idx_y_zoom_sprite;
            let zoom_sprite = state.zoom_sprite;

            if point_in_rect(
                mouse_x,
                mouse_y,
                idx_x_zoom_sprite as i32,
                idx_y_zoom_sprite as i32,
                (idx_x_zoom_sprite + 128) as i32,
                (idx_y_zoom_sprite + 128) as i32,
            ) {
                let idx_x: u32 = (((mouse_x - idx_x_zoom_sprite as i32) as u32) * zoom_sprite)
                    / 16;
                let idx_y: u32 = (((mouse_y - idx_y_zoom_sprite as i32) as u32) * zoom_sprite)
                    / 16;
                surface.sset(
                    state.x_zoom_sprite + idx_x,
                    state.y_zoom_sprite + idx_y,
                    self.current_color,
                );
            }
            if point_in_rect(mouse_x, mouse_y, self.idx_x, self.idx_y, self.idx_x + 4 * 8, self.idx_y + 4 * 8) {
                let idx_x: i32 = (mouse_x - self.idx_x) / 8;
                let idx_y: i32 = (mouse_y - self.idx_y) / 8;
                self.current_color = (idx_x + idx_y * 4) as u32;
                self.current_selection_x = idx_x;
                self.current_selection_y = idx_y;
            }
        }
    }

    /// The atlas after a whole run of frames of palette interaction, the
    /// picker's selection held fixed.
    pub open spec fn spec_sheet_after_frames(
        p: PalettePicker,
        states: Seq<State>,
        sheet: Seq<u32>,
    ) -> Seq<u32>
        decreases states.len(),
    {
        if states.len() == 0 {
            sheet
        } else {
            Self::spec_sheet_after_frames(
                p,
                states.drop_first(),
                Self::spec_sheet_after(p, states[0], sheet),
            )
        }
    }

    /// Law: a frame without a left-button edge paints nothing and moves no
    /// selection, whatever the level state says.
    pub proof fn lemma_update_edge_triggered(p: PalettePicker, state: State, sheet: Seq<u32>)
        requires
            state.mouse_statep != MOUSE_LEFT,
        ensures
            Self::spec_sheet_after(p, state, sheet) == sheet,
            Self::spec_picker_after(p, state) == p,
    {
    }

    /// Law: a run of frames none of which carries a left-button edge leaves
    /// the atlas untouched.
    pub proof fn lemma_no_edge_no_paint(p: PalettePicker, states: Seq<State>, sheet: Seq<u32>)
        requires
            forall|i: int| 0 <= i < states.len() ==> states[i].mouse_statep != MOUSE_LEFT,
        ensures
            Self::spec_sheet_after_frames(p, states, sheet) == sheet,
        decreases states.len(),
    {
        if states.len() > 0 {
            Self::lemma_update_edge_triggered(p, states[0], sheet);
            Self::lemma_no_edge_no_paint(p, states.drop_first(), sheet);
        }
    }

    /// Law: a click inside the editing canvas never moves the color
    /// selection — the canvas and the swatch grid do not overlap — so
    /// across a press held inside the canvas the picker stays fixed.
    pub proof fn lemma_canvas_click_keeps_selection(p: PalettePicker, state: State)
        requires
            p.wf(),
            state.wf(),
            spec_canvas_hit(state, state.mouse_x as int, state.mouse_y as int),
        ensures
            Self::spec_picker_after(p, state) == p,
    {
    }

    /// Law: painting is edge-triggered, not level-triggered.  Across any run
    /// of frames in which the left-button edge fires on exactly one frame —
    /// however long the button stays held, wherever the mouse sits — the
    /// atlas changes exactly as a single update on the edge frame would
    /// change it: one press paints at most one pixel.
    pub proof fn lemma_held_press_paints_at_most_once(
        p: PalettePicker,
        states: Seq<State>,
        sheet: Seq<u32>,
        e: int,
    )
        requires
            0 <= e < states.len(),
            forall|i: int|
                0 <= i < states.len() && i != e ==> states[i].mouse_statep != MOUSE_LEFT,
        ensures
            Self::spec_sheet_after_frames(p, states, sheet) == Self::spec_sheet_after(
                p,
                states[e],
                sheet,
            ),
        decreases states.len(),
    {
        if e == 0 {
            let painted = Self::spec_sheet_after(p, states[0], sheet);
            assert(forall|i: int|
                0 <= i < states.drop_first().len() ==> states.drop_first()[i].mouse_statep
                    != MOUSE_LEFT);
            Self::lemma_no_edge_no_paint(p, states.drop_first(), painted);
        } else {
            Self::lemma_update_edge_triggered(p, states[0], sheet);
            Self::lemma_held_press_paints_at_most_once(p, states.drop_first(), sheet, e - 1);
            assert(states.drop_first()[e - 1] == states[e]);
        }
    }

    /// The filled-rectangle command for swatch `i` of the 4x4 grid.
    pub open spec fn swatch_cmd(self, i: int) -> DrawCmd {
        DrawCmd::RectFill {
            x1: (self.idx_x + 8 * (i % 4)) as i32,
            y1: (self.idx_y + 8 * (i / 4)) as i32,
            x2: (self.idx_x + 8 * (i % 4) + 7) as i32,
            y2: (self.idx_y + 8 * (i / 4) + 7) as i32,
            color: i as i32,
        }
    }

    /// The selection outline: one pixel larger than the selected swatch.
    pub open spec fn selection_cmd(self) -> DrawCmd {
        DrawCmd::RectOutline {
            x1: (self.idx_x + 8 * self.current_selection_x - 1) as i32,
            y1: (self.idx_y + 8 * self.current_selection_y - 1) as i32,
            x2: (self.idx_x + 8 * self.current_selection_x + 8) as i32,
            y2: (self.idx_y + 8 * self.current_selection_y + 8) as i32,
            color: 7,
        }
    }

    /// Append the 16 swatches (swatch `i` filled with color `i`) and the
    /// selection outline.
    pub fn draw(&self, cmds: &mut Vec<DrawCmd>)
        requires
            self.wf(),
        ensures
            final(cmds)@.len() == old(cmds)@.len() + 17,
            forall|j: int| 0 <= j < old(cmds)@.len() ==> final(cmds)@[j] == old(cmds)@[j],
            forall|i: int|
                0 <= i < 16 ==> final(cmds)@[old(cmds)@.len() + i] == self.swatch_cmd(i),
            final(cmds)@[old(cmds)@.len() + 16int] == self.selection_cmd(),
    {
        let ghost base = cmds@.len() as int;
        let mut i: u32 = 0;
        while i < 16
            invariant
                self.wf(),
                i <= 16,
                base == old(cmds)@.len(),
                cmds@.len() == base + i,
                forall|j: int| 0 <= j < base ==> cmds@[j] == old(cmds)@[j],
                forall|j: int| 0 <= j < i ==> cmds@[base + j] == self.swatch_cmd(j),
            decreases 16 - i,
        {
            let pos_x: i32 = self.idx_x + 8 * ((i as i32) % 4);
            let pos_y: i32 = self.idx_y + 8 * ((i as i32) / 4);
            let cmd = DrawCmd::RectFill {
                x1: pos_x,
                y1: pos_y,
                x2: pos_x + 7,
                y2: pos_y + 7,
                color: i as i32,
            };
            proof {
                assert(cmd == self.swatch_cmd(i as int));
            }
            let ghost prev = cmds@;
            cmds.push(cmd);
            i = i + 1;
            proof {
                assert(forall|j: int|
                    0 <= j < i - 1 ==> #[trigger] prev.push(cmd)[base + j] == prev[base + j]);
            }
        }
        let current_selection_x: i32 = (self.idx_x + 8 * self.current_selection_x) - 1;
        let current_selection_y: i32 = (self.idx_y + 8 * self.current_selection_y) - 1;
        cmds.push(
            DrawCmd::RectOutline {
                x1: current_selection_x,
                y1: current_selection_y,
                x2: current_selection_x + 9,
                y2: current_selection_y + 9,
                color: 7,
            },
        );
    }
}

} // verus!
