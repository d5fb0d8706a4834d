//! Map editor: a scrollable, zoomable view of the persistent 128x32 tile
//! grid.  A click paints the selected sprite (and its zoom x zoom
//! neighbourhood) into the grid, writing the local cache and the persisted
//! storage in lockstep so the cache stays a valid read replica.
//!
//! The map zoom factor is 1, 1/2 or 1/4; it is stored as its denominator
//! (1, 2 or 4), so every derived quantity stays in integers: the cell pixel
//! size is `8 / denom`, and the pan limits below are the integer values of
//! `floor((128 - 24 * z) * z)` and `floor((32 - 16 * z) * z)` for
//! `z = 1 / denom`.

use vstd::prelude::*;

use crate::draw::DrawCmd;
use crate::geom::in_rect;
use crate::geom::point_in_rect;
use crate::input::FrameInput;
use crate::input::State;
use crate::input::MOUSE_LEFT;
use crate::surface::Surface;

verus! {

/// The map zoom denominator selected by a cycle index: 1, 2, 4 for zoom
/// factors 1, 1/2, 1/4.
pub open spec fn spec_map_denom(idx: u32) -> u32 {
    if idx == 0 {
        1
    } else if idx == 1 {
        2
    } else {
        4
    }
}

/// Largest pan offset x for a zoom denominator: floor((128 - 24z) * z).
pub open spec fn spec_max_offset_x(denom: u32) -> int {
    if denom == 1 {
        104
    } else if denom == 2 {
        58
    } else {
        30
    }
}

/// Largest pan offset y for a zoom denominator: floor((32 - 16z) * z).
pub open spec fn spec_max_offset_y(denom: u32) -> int {
    if denom == 1 {
        16
    } else if denom == 2 {
        12
    } else {
        7
    }
}

/// Write one cell of a 128x32 grid stored row-major; a target outside the
/// grid is a no-op.
pub open spec fn spec_cell_write(m: Seq<u32>, cx: int, cy: int, v: u32) -> Seq<u32> {
    if 0 <= cx < 128 && 0 <= cy < 32 {
        m.update(cx + cy * 128, v)
    } else {
        m
    }
}

/// The first `n` writes of painting a `z x z` sprite block whose top-left
/// cell is (cx, cy): write `k` (column-major: x = k / z, y = k % z) puts
/// sprite `base + x + 16 * y` into cell (cx + x, cy + y).
pub open spec fn spec_paint_block(
    m: Seq<u32>,
    base: int,
    cx: int,
    cy: int,
    z: int,
    n: int,
) -> Seq<u32>
    decreases n,
{
    if n <= 0 {
        m
    } else {
        let k = n - 1;
        let x = k / z;
        let y = k % z;
        spec_cell_write(
            spec_paint_block(m, base, cx, cy, z, n - 1),
            cx + x,
            cy + y,
            (base + x + 16 * y) as u32,
        )
    }
}

/// The scrollable, zoomable tile-grid editor.
pub struct MapEditor {
    /// Fixed screen rectangle of the map canvas.
    pub coord_x1: i32,
    pub coord_y1: i32,
    pub coord_x2: i32,
    pub coord_y2: i32,
    /// Viewport offset, in cells.
    pub offset_x: i32,
    pub offset_y: i32,
    /// Index into the zoom cycle, in [0, 3).
    pub idx_zoom: u32,
    /// Zoom denominator, one of {1, 2, 4}.
    pub zoom_denom: u32,
    /// Local mirror of the persisted grid; entry `x + y * 128`.
    pub cache: Vec<u32>,
    /// Cell-aligned screen position of the selection highlight.
    pub select_x: i32,
    pub select_y: i32,
    /// Cell pixel size at the current zoom: 8 / zoom_denom.
    pub size_sprite: i32,
    /// Grid coordinates of the last hovered cell.
    pub current_sprite_x: u32,
    pub current_sprite_y: u32,
}

impl MapEditor {
    pub open spec fn wf(self) -> bool {
        &&& self.coord_x1 == 0 && self.coord_y1 == 8
        &&& self.coord_x2 == 240 && self.coord_y2 == 190
        &&& self.idx_zoom < 3
        &&& self.zoom_denom == spec_map_denom(self.idx_zoom)
        &&& self.size_sprite == 8int / (self.zoom_denom as int)
        &&& 0 <= self.offset_x <= 104
        &&& 0 <= self.offset_y <= 16
        &&& self.cache@.len() == 128 * 32
        &&& 0 <= self.select_x <= 192
        &&& 0 <= self.select_y <= 192
    }

    pub fn new() -> (me: MapEditor)
        ensures
            me.wf(),
            me.offset_x == 0 && me.offset_y == 0,
            me.zoom_denom == 1 && me.idx_zoom == 0 && me.size_sprite == 8,
            me.select_x == 0 && me.select_y == 8,
            me.current_sprite_x == 0 && me.current_sprite_y == 0,
            forall|i: int| 0 <= i < 128 * 32 ==> me.cache@[i] == 0,
    {
        let mut cache: Vec<u32> = Vec::new();
        cache.resize(128 * 32, 0);
        MapEditor {
            coord_x1: 0,
            coord_y1: 8,
            coord_x2: 240,
            coord_y2: 190,
            offset_x: 0,
            offset_y: 0,
            idx_zoom: 0,
            zoom_denom: 1,
            cache,
            select_x: 0,
            select_y: 8,
            size_sprite: 8,
            current_sprite_x: 0,
            current_sprite_y: 0,
        }
    }

    /// Reload the whole cache from the persisted grid.  Called on every
    /// entry into map editing; afterwards the cache is an exact replica.
    pub fn init(&mut self, surface: &Surface)
        requires
            old(self).wf(),
            surface.wf(),
        ensures
            final(self).wf(),
            final(self).cache@ == surface.map@,
            *final(self) == (MapEditor { cache: final(self).cache, ..*old(self) }),
    {
        let mut k: usize = 0;
        while k < 128 * 32
            invariant
                self.wf(),
                surface.wf(),
                k <= 128 * 32,
                self.cache@.len() == 128 * 32,
                forall|j: int| 0 <= j < k ==> self.cache@[j] == surface.map@[j],
                *self == (MapEditor { cache: self.cache, ..*old(self) }),
            decreases 128 * 32 - k,
        {
            let x: u32 = (k as u32) % 128;
            let y: u32 = (k as u32) / 128;
            let v = surface.mget(x, y);
            proof {
                assert(x + y * 128 == k as int);
            }
            self.cache.set(k, v);
            k = k + 1;
        }
        proof {
            assert(self.cache@ =~= surface.map@);
        }
    }

    /// The editor after the pan and zoom triggers of one frame: each pan
    /// trigger moves the offset by 8 cells and clamps it (to zero on the
    /// near side, to the zoom's limit on the far side); the zoom trigger
    /// advances the cycle and re-derives the denominator and cell size.
    pub open spec fn spec_after_pan(me: MapEditor, input: FrameInput) -> MapEditor {
        let ox0 = if input.pan_left {
            if me.offset_x - 8 > 0 {
                me.offset_x - 8
            } else {
                0
            }
        } else {
            me.offset_x as int
        };
        let ox = if input.pan_right {
            if ox0 + 8 < spec_max_offset_x(me.zoom_denom) {
                ox0 + 8
            } else {
                spec_max_offset_x(me.zoom_denom)
            }
        } else {
            ox0
        };
        let oy0 = if input.pan_up {
            if me.offset_y - 8 > 0 {
                me.offset_y - 8
            } else {
                0
            }
        } else {
            me.offset_y as int
        };
        let oy = if input.pan_down {
            if oy0 + 8 < spec_max_offset_y(me.zoom_denom) {
                oy0 + 8
            } else {
                spec_max_offset_y(me.zoom_denom)
            }
        } else {
            oy0
        };
        let idx = if input.zoom_cycle {
            ((me.idx_zoom + 1) % 3) as u32
        } else {
            me.idx_zoom
        };
        MapEditor {
            offset_x: ox as i32,
            offset_y: oy as i32,
            idx_zoom: idx,
            zoom_denom: spec_map_denom(idx),
            size_sprite: (8int / (spec_map_denom(idx) as int)) as i32,
            ..me
        }
    }

    /// Does the mouse sit inside the map canvas?
    pub open spec fn spec_canvas_hover(state: State) -> bool {
        in_rect(state.mouse_x as int, state.mouse_y as int, 0, 8, 240, 190)
    }

    /// Cell-aligned x of the hovered position: the mouse snapped down to a
    /// multiple of the cell size, capped at 192.
    pub open spec fn spec_select_x(me: MapEditor, state: State) -> int {
        let v = (state.mouse_x as int) - (state.mouse_x as int) % (me.size_sprite as int);
        if v < 192 {
            v
        } else {
            192
        }
    }

    pub open spec fn spec_select_y(me: MapEditor, state: State) -> int {
        let v = (state.mouse_y as int) - (state.mouse_y as int) % (me.size_sprite as int);
        if v < 192 {
            v
        } else {
            192
        }
    }

    /// Grid x of the hovered cell: the snapped canvas position shifted by
    /// the viewport offset.
    pub open spec fn spec_cell_x(me: MapEditor, state: State) -> int {
        (Self::spec_select_x(me, state) + me.offset_x * me.size_sprite) / (me.size_sprite as int)
    }

    /// Grid y of the hovered cell; the canvas starts 8 pixels down.
    pub open spec fn spec_cell_y(me: MapEditor, state: State) -> int {
        (Self::spec_select_y(me, state) - 8 + me.offset_y * me.size_sprite) / (me.size_sprite as int)
    }

    /// Apply one frame's pan and zoom triggers.
    pub fn apply_pan_zoom(&mut self, input: &FrameInput)
        requires
            old(self).wf(),
        ensures
            final(self).wf(),
            *final(self) == Self::spec_after_pan(*old(self), *input),
    {
        if input.pan_left {
            self.offset_x = self.offset_x - 8;
            if self.offset_x < 0 {
                self.offset_x = 0;
            }
        }
        if input.pan_right {
            self.offset_x = self.offset_x + 8;
            let limit = max_offset_x(self.zoom_denom);
            if self.offset_x > limit {
                self.offset_x = limit;
            }
        }
        if input.pan_up {
            self.offset_y = self.offset_y - 8;
            if self.offset_y < 0 {
                self.offset_y = 0;
            }
        }
        if input.pan_down {
            self.offset_y = self.offset_y + 8;
            let limit = max_offset_y(self.zoom_denom);
            if self.offset_y > limit {
                self.offset_y = limit;
            }
        }
        if input.zoom_cycle {
            self.idx_zoom = (self.idx_zoom + 1) % 3;
            self.zoom_denom = map_denom(self.idx_zoom);
            self.size_sprite = 8 / (self.zoom_denom as i32);
        }
    }

    /// One frame of the map editor, on this frame's snapshot.  Pan and zoom
    /// run first; then, with the mouse over the canvas, the hovered cell is
    /// derived, and a held left button paints the selected sprite's
    /// `zoom x zoom` block there — into the cache and the persisted grid in
    /// lockstep, skipping any cell that falls outside the grid.
    #[verifier::rlimit(80)]
    pub fn update(&mut self, input: &FrameInput, state: &State, surface: &mut Surface)
        requires
            old(self).wf(),
            state.wf(),
            old(surface).wf(),
        ensures
            final(self).wf(),
            final(surface).wf(),
            final(surface).sheet@ == old(surface).sheet@,
            final(surface).flags@ == old(surface).flags@,
            ({
                let me1 = Self::spec_after_pan(*old(self), *input);
                let hovered = Self::spec_canvas_hover(*state);
                let painting = hovered && state.mouse_state == MOUSE_LEFT;
                let cx = Self::spec_cell_x(me1, *state);
                let cy = Self::spec_cell_y(me1, *state);
                let z = state.zoom_sprite as int;
                let base = state.current_sprite as int;
                &&& final(self).offset_x == me1.offset_x && final(self).offset_y == me1.offset_y
                &&& final(self).idx_zoom == me1.idx_zoom && final(self).zoom_denom
                    == me1.zoom_denom && final(self).size_sprite == me1.size_sprite
                &&& (hovered ==> final(self).select_x == Self::spec_select_x(me1, *state)
                    && final(self).select_y == Self::spec_select_y(me1, *state)
                    && final(self).current_sprite_x == cx && final(self).current_sprite_y == cy)
                &&& (!hovered ==> final(self).select_x == old(self).select_x
                    && final(self).select_y == old(self).select_y
                    && final(self).current_sprite_x == old(self).current_sprite_x
                    && final(self).current_sprite_y == old(self).current_sprite_y)
                &&& (painting ==> final(self).cache@ == spec_paint_block(
                    old(self).cache@,
                    base,
                    cx,
                    cy,
                    z,
                    z * z,
                ) && final(surface).map@ == spec_paint_block(
                    old(surface).map@,
                    base,
                    cx,
                    cy,
                    z,
                    z * z,
                ))
                &&& (!painting ==> final(self).cache@ == old(self).cache@ && final(surface).map@
                    == old(surface).map@)
            }),
            old(self).cache@ == old(surface).map@ ==> final(self).cache@ == final(surface).map@,
    {
        self.apply_pan_zoom(input);

        let mouse_x = state.mouse_x;
        let mouse_y = state.mouse_y;

        if point_in_rect(mouse_x, mouse_y, self.coord_x1, self.coord_y1, self.coord_x2, self.coord_y2) {
            let sx = mouse_x - mouse_x % self.size_sprite;
            self.select_x = if sx < 192 {
                sx
            } else {
                192
            };
            let sy = mouse_y - mouse_y % self.size_sprite;
            self.select_y = if sy < 192 {
                sy
            } else {
                192
            };
            proof {
                lemma_snap_keeps_top(mouse_y as int, self.size_sprite as int);
            }

            proof {
                assert(self.size_sprite == 8 || self.size_sprite == 4 || self.size_sprite == 2);
                assert(self.offset_x * self.size_sprite <= 832);
                assert(0 <= self.offset_y * self.size_sprite <= 128);
            }
            let new_x: u32 = ((self.select_x + self.offset_x * self.size_sprite)
                / self.size_sprite) as u32;
            let new_y: u32 = ((self.select_y - self.coord_y1 + self.offset_y * self.size_sprite)
                / self.size_sprite) as u32;
            proof {
                assert(new_x <= 512 && new_y <= 160);
            }

            if state.mouse_state == MOUSE_LEFT {
                let zoom_sprite = state.zoom_sprite;
                let ghost me2 = *self;
                let ghost cache0 = self.cache@;
                let ghost map0 = surface.map@;
                let mut x: u32 = 0;
                while x < zoom_sprite
                    invariant
                        self.wf(),
                        surface.wf(),
                        state.wf(),
                        zoom_sprite == state.zoom_sprite,
                        x <= zoom_sprite,
                        new_x == Self::spec_cell_x(*self, *state) && new_y == Self::spec_cell_y(
                            *self,
                            *state,
                        ),
                        new_x <= 512 && new_y <= 160,
                        self.cache@ == spec_paint_block(
                            cache0,
                            state.current_sprite as int,
                            new_x as int,
                            new_y as int,
                            zoom_sprite as int,
                            x * zoom_sprite,
                        ),
                        surface.map@ == spec_paint_block(
                            map0,
                            state.current_sprite as int,
                            new_x as int,
                            new_y as int,
                            zoom_sprite as int,
                            x * zoom_sprite,
                        ),
                        surface.sheet@ == old(surface).sheet@,
                        surface.flags@ == old(surface).flags@,
                        *self == (MapEditor { cache: self.cache, ..me2 }),
                    decreases zoom_sprite - x,
                {
                    let mut y: u32 = 0;
                    while y < zoom_sprite
                        invariant
                            self.wf(),
                            surface.wf(),
                            state.wf(),
                            zoom_sprite == state.zoom_sprite,
                            x < zoom_sprite,
                            y <= zoom_sprite,
                            new_x == Self::spec_cell_x(*self, *state) && new_y == Self::spec_cell_y(
                                *self,
                                *state,
                            ),
                            new_x <= 512 && new_y <= 160,
                            self.cache@ == spec_paint_block(
                                cache0,
                                state.current_sprite as int,
                                new_x as int,
                                new_y as int,
                                zoom_sprite as int,
                                x * zoom_sprite + y,
                            ),
                            surface.map@ == spec_paint_block(
                                map0,
                                state.current_sprite as int,
                                new_x as int,
                                new_y as int,
                                zoom_sprite as int,
                                x * zoom_sprite + y,
                            ),
                            surface.sheet@ == old(surface).sheet@,
                            surface.flags@ == old(surface).flags@,
                            *self == (MapEditor { cache: self.cache, ..me2 }),
                        decreases zoom_sprite - y,
                    {
                        let current_sprite = state.current_sprite + x + y * 16;
                        let cx: u32 = new_x + x;
                        let cy: u32 = new_y + y;
                        proof {
                            let n: int = x * zoom_sprite + y;
                            assert(n / (zoom_sprite as int) == x as int && n % (zoom_sprite as int)
                                == y as int) by (nonlinear_arith)
                                requires
                                    0 < zoom_sprite,
                                    0 <= y < zoom_sprite,
                                    n == x * zoom_sprite + y,
                            ;
                        }
                        if cx < 128 && cy < 32 {
                            let idx: usize = (cx + cy * 128) as usize;
                            self.cache.set(idx, current_sprite);
                        }
                        surface.mset(cx, cy, current_sprite);
                        y = y + 1;
                    }
                    x = x + 1;
                }
            }
            self.current_sprite_x = new_x;
            self.current_sprite_y = new_y;
        }
    }

    /// How many rows of cells the viewport shows: `16 / zoom` rows, cut
    /// down to what is left of the grid below the offset.
    pub open spec fn spec_visible_rows(me: MapEditor) -> int {
        if 16 * me.zoom_denom <= 32 - me.offset_y {
            16 * (me.zoom_denom as int)
        } else {
            32 - me.offset_y
        }
    }

    /// How many columns of cells the viewport shows: `24 / zoom` columns,
    /// cut down to what is left of the grid right of the offset.
    pub open spec fn spec_visible_cols(me: MapEditor) -> int {
        if 24 * me.zoom_denom <= 128 - me.offset_x {
            24 * (me.zoom_denom as int)
        } else {
            128 - me.offset_x
        }
    }

    /// The command that clears the map canvas.
    pub open spec fn clear_cmd(me: MapEditor) -> DrawCmd {
        DrawCmd::RectFill { x1: 0, y1: 8, x2: 240, y2: 190, color: 0 }
    }

    /// The blit for viewport slot (c, r) showing sprite `n`: the sprite's
    /// 8x8 atlas square scaled to the current cell pixel size.
    pub open spec fn blit_cmd(me: MapEditor, c: int, r: int, n: u32) -> DrawCmd {
        DrawCmd::StretchBlit {
            src_x: (((n as int) % 16) * 8) as u32,
            src_y: (((n as int) / 16) * 8) as u32,
            src_w: 8,
            src_h: 8,
            dst_x: (c * me.size_sprite) as i32,
            dst_y: (r * me.size_sprite + 9) as i32,
            dst_w: me.size_sprite as u32,
            dst_h: me.size_sprite as u32,
        }
    }

    /// The blits for the first `k` viewport slots in row-major order: one
    /// blit per slot whose cached sprite is non-zero, nothing for sprite 0.
    pub open spec fn spec_map_cmds(me: MapEditor, k: int) -> Seq<DrawCmd>
        decreases k,
    {
        if k <= 0 {
            Seq::empty()
        } else {
            let cols = Self::spec_visible_cols(me);
            let c = (k - 1) % cols;
            let r = (k - 1) / cols;
            let n = me.cache@[(me.offset_x + c) + (me.offset_y + r) * 128];
            Self::spec_map_cmds(me, k - 1) + (if n == 0 {
                Seq::<DrawCmd>::empty()
            } else {
                seq![Self::blit_cmd(me, c, r, n)]
            })
        }
    }

    /// The selection highlight: a square of `8 * zoom * sprite_zoom`
    /// pixels at the hovered, cell-aligned position.
    pub open spec fn sel_cmd(me: MapEditor, state: State) -> DrawCmd {
        DrawCmd::RectOutline {
            x1: me.select_x,
            y1: me.select_y,
            x2: (me.select_x + me.size_sprite * state.zoom_sprite) as i32,
            y2: (me.select_y + me.size_sprite * state.zoom_sprite) as i32,
            color: 7,
        }
    }

    /// The hovered cell's grid coordinates, printed as text.
    pub open spec fn info_cmd(me: MapEditor) -> DrawCmd {
        DrawCmd::NumPair {
            a: me.current_sprite_x,
            b: me.current_sprite_y,
            x: 80,
            y: 193,
            color: 7,
        }
    }

    /// Append the map editor's visual: clear the canvas, blit every
    /// non-empty visible cell (the visible window is cut to the grid, so no
    /// cell outside 128x32 is ever read), then the selection highlight and
    /// the hovered cell's coordinates.
    pub fn draw(&self, state: &State, cmds: &mut Vec<DrawCmd>)
        requires
            self.wf(),
            state.wf(),
        ensures
            final(cmds)@ == (old(cmds)@.push(Self::clear_cmd(*self)) + Self::spec_map_cmds(
                *self,
                Self::spec_visible_rows(*self) * Self::spec_visible_cols(*self),
            )).push(Self::sel_cmd(*self, *state)).push(Self::info_cmd(*self)),
    {
        cmds.push(DrawCmd::RectFill { x1: 0, y1: 8, x2: 240, y2: 190, color: 0 });

        let d: u32 = self.zoom_denom;
        let oy: u32 = self.offset_y as u32;
        let ox: u32 = self.offset_x as u32;
        let rows: u32 = if 16 * d <= 32 - oy {
            16 * d
        } else {
            32 - oy
        };
        let cols: u32 = if 24 * d <= 128 - ox {
            24 * d
        } else {
            128 - ox
        };
        proof {
            assert(rows == Self::spec_visible_rows(*self));
            assert(cols == Self::spec_visible_cols(*self));
            assert(rows <= 32 && 24 <= cols <= 128);
            assert(rows * cols <= 4096) by (nonlinear_arith)
                requires
                    rows <= 32,
                    cols <= 128,
            ;
        }
        let total: u32 = rows * cols;
        let mut k: u32 = 0;
        while k < total
            invariant
                self.wf(),
                state.wf(),
                k <= total,
                d == self.zoom_denom && ox == self.offset_x && oy == self.offset_y,
                rows == Self::spec_visible_rows(*self),
                cols == Self::spec_visible_cols(*self),
                rows <= 32 && 24 <= cols <= 128,
                total == rows * cols,
                cmds@ == old(cmds)@.push(Self::clear_cmd(*self)) + Self::spec_map_cmds(
                    *self,
                    k as int,
                ),
            decreases total - k,
        {
            let c: u32 = k % cols;
            let r: u32 = k / cols;
            proof {
                assert(r < rows) by (nonlinear_arith)
                    requires
                        0 < cols,
                        k < rows * cols,
                        r == k as int / cols as int,
                ;
            }
            let cell_x: u32 = ox + c;
            let cell_y: u32 = oy + r;
            let n: u32 = self.cache[(cell_x + cell_y * 128) as usize];
            let ghost prev = cmds@;
            proof {
                assert(c * (self.size_sprite as int) <= 1016 && r * (self.size_sprite as int)
                    <= 248) by (nonlinear_arith)
                    requires
                        c <= 127,
                        r <= 31,
                        0 <= self.size_sprite <= 8,
                ;
            }
            if n != 0 {
                let sprite_x: u32 = (n % 16) * 8;
                let sprite_y: u32 = (n / 16) * 8;
                let dx: i32 = (c * (self.size_sprite as u32)) as i32;
                let dy: i32 = (r * (self.size_sprite as u32)) as i32 + 9;
                cmds.push(
                    DrawCmd::StretchBlit {
                        src_x: sprite_x,
                        src_y: sprite_y,
                        src_w: 8,
                        src_h: 8,
                        dst_x: dx,
                        dst_y: dy,
                        dst_w: self.size_sprite as u32,
                        dst_h: self.size_sprite as u32,
                    },
                );
            }
            k = k + 1;
            proof {
                assert(cmds@ =~= old(cmds)@.push(Self::clear_cmd(*self)) + Self::spec_map_cmds(
                    *self,
                    k as int,
                ));
            }
        }

        let zoom_sprite: i32 = state.zoom_sprite as i32;
        proof {
            assert(self.size_sprite * zoom_sprite <= 32) by (nonlinear_arith)
                requires
                    0 <= self.size_sprite <= 8,
                    0 <= zoom_sprite <= 4,
            ;
        }
        let side: i32 = self.size_sprite * zoom_sprite;
        cmds.push(
            DrawCmd::RectOutline {
                x1: self.select_x,
                y1: self.select_y,
                x2: self.select_x + side,
                y2: self.select_y + side,
                color: 7,
            },
        );
        cmds.push(
            DrawCmd::NumPair {
                a: self.current_sprite_x,
                b: self.current_sprite_y,
                x: 80,
                y: 193,
                color: 7,
            },
        );
    }
}

/// Law: map viewport panning never produces an offset that exposes cells
/// outside the 128x32 grid.  After any sequence of pan and zoom triggers
/// the offset stays inside the grid, and every viewport slot the draw pass
/// reads lies inside the grid.
pub proof fn lemma_viewport_in_grid(me: MapEditor, input: FrameInput)
    requires
        me.wf(),
    ensures
        ({
            let a = MapEditor::spec_after_pan(me, input);
            &&& 0 <= a.offset_x <= 104 < 128 && 0 <= a.offset_y <= 16 < 32
            &&& a.wf()
        }),
        0 < MapEditor::spec_visible_cols(me) && me.offset_x + MapEditor::spec_visible_cols(me)
            <= 128,
        0 < MapEditor::spec_visible_rows(me) && me.offset_y + MapEditor::spec_visible_rows(me)
            <= 32,
{
}

/// Row-major index of grid cell (u, v) in a 128-wide grid.
pub open spec fn cell_at(u: int, v: int) -> int {
    u + v * 128
}

/// Law (helper): what painting a block does to each cell of the grid.  The
/// cells of the block that lie on the grid hold their new sprite index; all
/// other cells are untouched.
pub proof fn lemma_paint_block_cells(m: Seq<u32>, base: int, cx: int, cy: int, z: int, n: int)
    requires
        m.len() == 128 * 32,
        0 < z,
        0 <= n <= z * z,
    ensures
        spec_paint_block(m, base, cx, cy, z, n).len() == m.len(),
        forall|u: int, v: int|
            #![trigger spec_paint_block(m, base, cx, cy, z, n)[cell_at(u, v)]]
            cx <= u < cx + z && cy <= v < cy + z && (u - cx) * z + (v - cy) < n && 0 <= u < 128
                && 0 <= v < 32 ==> spec_paint_block(m, base, cx, cy, z, n)[cell_at(u, v)]
                == ((base + (u - cx) + 16 * (v - cy)) as u32),
        forall|u: int, v: int|
            #![trigger spec_paint_block(m, base, cx, cy, z, n)[cell_at(u, v)]]
            0 <= u < 128 && 0 <= v < 32 && !(cx <= u < cx + z && cy <= v < cy + z)
                ==> spec_paint_block(m, base, cx, cy, z, n)[cell_at(u, v)] == m[cell_at(u, v)],
    decreases n,
{
    if n > 0 {
        lemma_paint_block_cells(m, base, cx, cy, z, n - 1);
        let k = n - 1;
        let xk = k / z;
        let yk = k % z;
        assert(0 <= xk < z && 0 <= yk < z && xk * z + yk == k) by (nonlinear_arith)
            requires
                0 < z,
                0 <= k < z * z,
                xk == k / z,
                yk == k % z,
        ;
        assert(forall|u: int, v: int|
            #![trigger cell_at(u, v)]
            cx <= u < cx + z && cy <= v < cy + z && (u - cx) * z + (v - cy) < n && !(u == cx + xk
                && v == cy + yk) ==> (u - cx) * z + (v - cy) < n - 1) by (nonlinear_arith)
            requires
                0 < z,
                n - 1 == xk * z + yk,
                0 <= yk < z,
        ;
    }
}

/// Law: cache/storage consistency.  After a successful paint of a
/// `z x z` block whose cells all lie on the grid, the cache and the
/// persisted grid agree on every cell of the block — whatever either held
/// before — and both hold the painted sprite indices there.
pub proof fn lemma_paint_cache_storage_agree(
    cache: Seq<u32>,
    map: Seq<u32>,
    base: int,
    cx: int,
    cy: int,
    z: int,
)
    requires
        cache.len() == 128 * 32,
        map.len() == 128 * 32,
        0 < z,
        0 <= cx && cx + z <= 128,
        0 <= cy && cy + z <= 32,
    ensures
        forall|u: int, v: int|
            #![trigger spec_paint_block(cache, base, cx, cy, z, z * z)[cell_at(u, v)]]
            cx <= u < cx + z && cy <= v < cy + z ==> spec_paint_block(
                cache,
                base,
                cx,
                cy,
                z,
                z * z,
            )[cell_at(u, v)] == ((base + (u - cx) + 16 * (v - cy)) as u32),
        forall|u: int, v: int|
            #![trigger spec_paint_block(map, base, cx, cy, z, z * z)[cell_at(u, v)]]
            cx <= u < cx + z && cy <= v < cy + z ==> spec_paint_block(
                map,
                base,
                cx,
                cy,
                z,
                z * z,
            )[cell_at(u, v)] == ((base + (u - cx) + 16 * (v - cy)) as u32),
{
    lemma_paint_block_cells(cache, base, cx, cy, z, z * z);
    lemma_paint_block_cells(map, base, cx, cy, z, z * z);
    assert(forall|u: int, v: int|
        #![trigger cell_at(u, v)]
        cx <= u < cx + z && cy <= v < cy + z ==> (u - cx) * z + (v - cy) < z * z)
        by (nonlinear_arith);
}

/// The largest pan offset x for a zoom denominator.
pub fn max_offset_x(denom: u32) -> (r: i32)
    requires
        denom == 1 || denom == 2 || denom == 4,
    ensures
        r == spec_max_offset_x(denom),
{
    if denom == 1 {
        104
    } else if denom == 2 {
        58
    } else {
        30
    }
}

/// The largest pan offset y for a zoom denominator.
pub fn max_offset_y(denom: u32) -> (r: i32)
    requires
        denom == 1 || denom == 2 || denom == 4,
    ensures
        r == spec_max_offset_y(denom),
{
    if denom == 1 {
        16
    } else if denom == 2 {
        12
    } else {
        7
    }
}

/// The map zoom denominator selected by a cycle index.
pub fn map_denom(idx: u32) -> (r: u32)
    requires
        idx < 3,
    ensures
        r == spec_map_denom(idx),
{
    if idx == 0 {
        1
    } else if idx == 1 {
        2
    } else {
        4
    }
}

/// Snapping a coordinate at least 8 down to a multiple of a cell size that
/// divides 8 cannot land below 8.
proof fn lemma_snap_keeps_top(m: int, s: int)
    requires
        s == 2 || s == 4 || s == 8,
        m >= 8,
    ensures
        m - m % s >= 8,
{
    assert(m - m % s >= 8) by (nonlinear_arith)
        requires
            (s == 2 || s == 4 || s == 8) && m >= 8,
    ;
}

} // verus!
