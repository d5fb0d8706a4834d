//! Clickables: rectangular hit regions with a visual.
//!
//! [`Button`] is a solid swatch with a text label whose label color changes
//! while it reports a hit.  [`Widget`] is a fixed pixel glyph that doubles
//! as a mode switch: its `clicked` flag is recomputed from the level mouse
//! state on every update, and the orchestrator reacts to it.

use vstd::prelude::*;

use crate::draw::DrawCmd;
use crate::geom::in_rect;
use crate::input::State;
use crate::input::MOUSE_LEFT;

verus! {

/// A labelled swatch button.  The rectangle is [x1, x2) x [y1, y2) in
/// display pixels.
pub struct Button {
    pub x1: i32,
    pub y1: i32,
    pub x2: i32,
    pub y2: i32,
    pub color: u32,
    pub text: String,
    pub highlight: bool,
    pub clicked: bool,
}

impl Button {
    pub fn new(
        x1: i32,
        y1: i32,
        x2: i32,
        y2: i32,
        color: u32,
        text: String,
        highlight: bool,
    ) -> (b: Button)
        ensures
            b == (Button { x1, y1, x2, y2, color, text, highlight, clicked: highlight }),
    {
        Button { x1, y1, x2, y2, color, text, highlight, clicked: highlight }
    }

    /// Recompute the hit flag from a mouse position.
    pub fn update(&mut self, x: i32, y: i32)
        ensures
            *final(self) == (Button {
                clicked: in_rect(
                    x as int,
                    y as int,
                    old(self).x1 as int,
                    old(self).y1 as int,
                    old(self).x2 as int,
                    old(self).y2 as int,
                ),
                ..*old(self)
            }),
    {
        self.clicked = (self.x1 <= x && x < self.x2) && (self.y1 <= y && y < self.y2);
    }

    pub fn is_click(&self) -> (r: bool)
        ensures
            r == self.clicked,
    {
        self.clicked
    }

    /// This button's filled rectangle.
    pub open spec fn fill_cmd(self) -> DrawCmd {
        DrawCmd::RectFill {
            x1: self.x1,
            y1: self.y1,
            x2: self.x2,
            y2: self.y2,
            color: self.color as i32,
        }
    }

    /// This button's label, highlighted (color 1) while the button reports
    /// a hit and plain (color 3) otherwise.
    pub open spec fn label_cmd(self) -> DrawCmd {
        DrawCmd::Text {
            text: self.text,
            x: (self.x1 + 1) as i32,
            y: self.y1,
            color: if self.clicked {
                1
            } else {
                3
            },
        }
    }

    /// Append this button's visual: its filled rectangle, then its label.
    pub fn draw(&self, cmds: &mut Vec<DrawCmd>)
        requires
            self.x1 < i32::MAX,
        ensures
            final(cmds)@ == old(cmds)@.push(self.fill_cmd()).push(self.label_cmd()),
    {
        cmds.push(
            DrawCmd::RectFill {
                x1: self.x1,
                y1: self.y1,
                x2: self.x2,
                y2: self.y2,
                color: self.color as i32,
            },
        );
        let mut color: i32 = 3;
        if self.clicked {
            color = 1;
        }
        cmds.push(DrawCmd::Text { text: self.text.clone(), x: self.x1 + 1, y: self.y1, color });
    }
}

/// Which mode a mode-switch widget stands for.
#[derive(Clone, Copy, PartialEq, Eq, Structural, Debug)]
pub enum WidgetKind {
    Sprites,
    MapSheet,
}

/// A pixel-glyph mode-switch widget.  The glyph is `w` x `h` pixels stored
/// row-major in `data`; the hit region is [x1, x2) x [y1, y2).
pub struct Widget {
    pub kind: WidgetKind,
    pub x1: u32,
    pub y1: u32,
    pub x2: u32,
    pub y2: u32,
    pub w: u32,
    pub h: u32,
    pub data: Vec<u8>,
    pub clicked: bool,
}

impl Widget {
    /// The glyph fills the hit region and the whole widget sits inside the
    /// display's coordinate range.
    pub open spec fn wf(self) -> bool {
        &&& 0 < self.w <= 1024
        &&& self.h <= 1024
        &&& self.x1 + self.w == self.x2
        &&& self.y1 + self.h == self.y2
        &&& self.x2 <= 1024
        &&& self.y2 <= 1024
        &&& self.data@.len() == self.w * self.h
    }

    pub fn new(kind: WidgetKind, x: u32, y: u32, w: u32, h: u32, data: Vec<u8>) -> (r: Widget)
        requires
            0 < w <= 1024,
            h <= 1024,
            x + w <= 1024,
            y + h <= 1024,
            data@.len() == w * h,
        ensures
            r == (Widget { kind, x1: x, y1: y, x2: (x + w) as u32, y2: (y + h) as u32, w, h, data, clicked: false }),
            r.wf(),
    {
        Widget { kind, x1: x, y1: y, x2: x + w, y2: y + h, w, h, data, clicked: false }
    }

    pub fn is_click(&self) -> (r: bool)
        ensures
            r == self.clicked,
    {
        self.clicked
    }

    /// Level-triggered hit test: the widget reports a hit for every frame
    /// the left mouse button is held inside its rectangle.
    pub fn update(&mut self, state: &State)
        ensures
            *final(self) == (Widget {
                clicked: state.mouse_state == MOUSE_LEFT && in_rect(
                    state.mouse_x as int,
                    state.mouse_y as int,
                    old(self).x1 as int,
                    old(self).y1 as int,
                    old(self).x2 as int,
                    old(self).y2 as int,
                ),
                ..*old(self)
            }),
    {
        self.clicked = false;
        if state.mouse_state == MOUSE_LEFT {
            let mouse_x = state.mouse_x;
            let mouse_y = state.mouse_y;
            self.clicked = mouse_x >= 0 && mouse_y >= 0 && (self.x1 <= mouse_x as u32
                && (mouse_x as u32) < self.x2) && (self.y1 <= mouse_y as u32 && (mouse_y as u32)
                < self.y2);
        }
    }

    /// The pixel command for glyph entry `k`: glyph pixels are laid out
    /// row-major, `w` to a row, starting at (x1, y1).
    pub open spec fn glyph_cmd(self, k: int) -> DrawCmd {
        DrawCmd::Pset {
            x: (self.x1 + k % (self.w as int)) as i32,
            y: (self.y1 + k / (self.w as int)) as i32,
            color: self.data@[k] as i32,
        }
    }

    /// Append the glyph: one pixel command per entry of `data`.
    pub fn draw(&self, cmds: &mut Vec<DrawCmd>)
        requires
            self.wf(),
        ensures
            final(cmds)@.len() == old(cmds)@.len() + self.data@.len(),
            forall|k: int|
                0 <= k < old(cmds)@.len() ==> final(cmds)@[k] == old(cmds)@[k],
            forall|k: int|
                0 <= k < self.data@.len() ==> final(cmds)@[old(cmds)@.len() + k]
                    == self.glyph_cmd(k),
    {
        let ghost base = cmds@.len() as int;
        let mut k: usize = 0;
        while k < self.data.len()
            invariant
                self.wf(),
                k <= self.data@.len(),
                base == old(cmds)@.len(),
                cmds@.len() == base + k,
                forall|j: int| 0 <= j < base ==> cmds@[j] == old(cmds)@[j],
                forall|j: int| 0 <= j < k ==> cmds@[base + j] == self.glyph_cmd(j),
            decreases self.data@.len() - k,
        {
            proof {
                assert(k < self.w * self.h);
                assert((self.w as int) * (self.h as int) <= 1024 * 1024
                    && (k as int) / (self.w as int) < self.h as int) by (nonlinear_arith)
                    requires
                        0 < self.w <= 1024,
                        self.h <= 1024,
                        (k as int) < (self.w as int) * (self.h as int),
                ;
            }
            let idx_w: u32 = (k as u32) % self.w;
            let idx_h: u32 = (k as u32) / self.w;
            proof {
                assert(idx_w == (k as int) % (self.w as int));
                assert(idx_h == (k as int) / (self.w as int));
                assert(idx_h < self.h);
            }
            let color = self.data[k];
            let cmd = DrawCmd::Pset {
                x: (self.x1 + idx_w) as i32,
                y: (self.y1 + idx_h) as i32,
                color: color as i32,
            };
            proof {
                assert(cmd == self.glyph_cmd(k as int));
            }
            let ghost prev = cmds@;
            cmds.push(cmd);
            k = k + 1;
            proof {
                assert(cmds@ == prev.push(cmd));
                assert(forall|j: int|
                    0 <= j < k - 1 ==> #[trigger] prev.push(cmd)[base + j] == prev[base + j]);
                assert(cmds@[base + (k - 1)] == cmd);
            }
        }
    }
}

} // verus!
