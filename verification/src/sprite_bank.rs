//! Sprite bank: the browser over 4 banks of 64 sprites, with bank-select
//! buttons, the 16x4 thumbnail grid, the active-sprite highlight and the
//! flag panel for the active sprite.

use vstd::prelude::*;

use crate::clickable::Button;
use crate::draw::DrawCmd;
use crate::flags::Flags;
use crate::geom::in_rect;
use crate::geom::point_in_rect;
use crate::input::State;
use crate::input::MOUSE_LEFT;
use crate::surface::Surface;

verus! {

/// Left edge of bank-select button `i`.
pub open spec fn spec_bank_x1(i: int) -> int {
    if i == 0 {
        208
    } else if i == 1 {
        213
    } else if i == 2 {
        218
    } else {
        223
    }
}

/// Right edge (exclusive) of bank-select button `i`.
pub open spec fn spec_bank_x2(i: int) -> int {
    if i == 0 {
        212
    } else if i == 1 {
        217
    } else if i == 2 {
        222
    } else {
        228
    }
}

/// Does a click at (mx, my) hit bank-select button `i`?
pub open spec fn spec_bank_button_hit(mx: int, my: int, i: int) -> bool {
    in_rect(mx, my, spec_bank_x1(i), 191, spec_bank_x2(i), 199)
}

/// Which bank-select button a click picks: 0..3, or -1 when the click hits
/// none of them (the buttons' rectangles are disjoint, so at most one can
/// be hit).
pub open spec fn spec_bank_pick(mx: int, my: int) -> int {
    if spec_bank_button_hit(mx, my, 0) {
        0
    } else if spec_bank_button_hit(mx, my, 1) {
        1
    } else if spec_bank_button_hit(mx, my, 2) {
        2
    } else if spec_bank_button_hit(mx, my, 3) {
        3
    } else {
        -1
    }
}

/// Does a click at (mx, my) land on the 16x4 thumbnail grid?  The grid is
/// 128 pixels wide and 32 pixels tall starting at the batch offset; a click
/// beside it selects nothing.
pub open spec fn spec_thumb_hit(state: State, mx: int, my: int) -> bool {
    0 <= mx < 128 && state.idx_sprites_batch <= my < state.idx_sprites_batch + 32
}

/// The shared state after one frame of the sprite bank, before the flag
/// panel runs.  On a held left button: a hit bank button selects that bank
/// (active sprite = 64 * bank); then a hit thumbnail selects the sprite
/// under the mouse inside the active bank and derives its atlas origin.
/// The hover flag is cleared every frame.
pub open spec fn spec_bank_state_after(state: State) -> State {
    let s0 = State { on_current_sprite: false, ..state };
    if state.mouse_state != MOUSE_LEFT {
        s0
    } else {
        let mx = state.mouse_x as int;
        let my = state.mouse_y as int;
        let pick = spec_bank_pick(mx, my);
        let s1 = if pick >= 0 {
            State { idx_map: pick as u32, current_sprite: (64 * pick) as u32, ..s0 }
        } else {
            s0
        };
        if spec_thumb_hit(state, mx, my) {
            let cs = mx / 8 + ((my - state.idx_sprites_batch) / 8) * 16 + 64 * s1.idx_map;
            State {
                current_sprite: cs as u32,
                x_zoom_sprite: ((cs % 16) * 8) as u32,
                y_zoom_sprite: ((cs / 16) * 8) as u32,
                ..s1
            }
        } else {
            s1
        }
    }
}

/// The bank a sprite index belongs to: banks hold 64 sprites each.
pub open spec fn spec_bank_of(i: int) -> int {
    i / 64
}

/// Atlas x origin of a sprite index: the atlas is 16 sprites wide, 8 pixels
/// per sprite.
pub open spec fn spec_atlas_origin_x(i: int) -> int {
    (i % 16) * 8
}

/// Atlas y origin of a sprite index.
pub open spec fn spec_atlas_origin_y(i: int) -> int {
    (i / 16) * 8
}

/// The bank of sprite `i`.
pub fn bank_of(i: u32) -> (b: u32)
    requires
        i < 256,
    ensures
        b == spec_bank_of(i as int),
        b < 4,
{
    i / 64
}

/// The atlas pixel origin of sprite `i`.
pub fn atlas_origin(i: u32) -> (xy: (u32, u32))
    requires
        i < 256,
    ensures
        xy.0 == spec_atlas_origin_x(i as int),
        xy.1 == spec_atlas_origin_y(i as int),
        xy.0 <= 120 && xy.1 <= 120,
{
    ((i % 16) * 8, (i / 16) * 8)
}

/// Law: sprite geometry.  Every sprite index in range decomposes into its
/// bank by division by 64 and into its atlas origin by the fixed 16-wide
/// layout, both origins landing inside the atlas; and whenever the bank
/// update selects a sprite from the thumbnail grid, the atlas origin it
/// derives is exactly that of the selected index.
pub proof fn lemma_sprite_geometry(i: int, state: State)
    requires
        0 <= i < 256,
        state.wf(),
    ensures
        0 <= spec_bank_of(i) < 4,
        64 * spec_bank_of(i) <= i < 64 * spec_bank_of(i) + 64,
        0 <= spec_atlas_origin_x(i) <= 120 && spec_atlas_origin_x(i) % 8 == 0,
        0 <= spec_atlas_origin_y(i) <= 120 && spec_atlas_origin_y(i) % 8 == 0,
        state.mouse_state == MOUSE_LEFT && spec_thumb_hit(
            state,
            state.mouse_x as int,
            state.mouse_y as int,
        ) ==> {
            let after = spec_bank_state_after(state);
            after.x_zoom_sprite == spec_atlas_origin_x(after.current_sprite as int)
                && after.y_zoom_sprite == spec_atlas_origin_y(after.current_sprite as int)
                && spec_bank_of(after.current_sprite as int) == after.idx_map
        },
{
}

/// Selection state part-way through the bank-button scan: once the scan has
/// passed the hit button (if any), the bank and sprite follow it; before
/// that, only the hover flag has been cleared.
pub open spec fn spec_bank_scan_state(prior: State, state: State, mx: int, my: int, n: int) -> bool {
    let pick = spec_bank_pick(mx, my);
    if 0 <= pick < n {
        state == (State {
            idx_map: pick as u32,
            current_sprite: (64 * pick) as u32,
            on_current_sprite: false,
            ..prior
        })
    } else {
        state == (State { on_current_sprite: false, ..prior })
    }
}

/// The sprite bank: four bank-select buttons and the flag panel.
pub struct SpritesMap {
    /// Hit strip that covers all four bank buttons.
    pub buttons_x1: i32,
    pub buttons_y1: i32,
    pub buttons_x2: i32,
    pub buttons_y2: i32,
    pub buttons_map: Vec<Button>,
    pub flags: Flags,
}

impl SpritesMap {
    /// The four buttons sit at their fixed places inside the strip.
    pub open spec fn wf(self) -> bool {
        &&& self.buttons_x1 == 208 && self.buttons_y1 == 191
        &&& self.buttons_x2 == 228 && self.buttons_y2 == 199
        &&& self.buttons_map@.len() == 4
        &&& forall|i: int|
            0 <= i < 4 ==> (#[trigger] self.buttons_map@[i]).x1 == spec_bank_x1(i)
                && self.buttons_map@[i].x2 == spec_bank_x2(i) && self.buttons_map@[i].y1 == 191
                && self.buttons_map@[i].y2 == 199
        &&& self.flags.wf()
    }

    pub fn new() -> (sm: SpritesMap)
        ensures
            sm.wf(),
            sm.buttons_map@[0].clicked == true && sm.buttons_map@[0].highlight == true,
            forall|i: int|
                1 <= i < 4 ==> (#[trigger] sm.buttons_map@[i]).clicked == false
                    && sm.buttons_map@[i].highlight == false,
            forall|i: int| 0 <= i < 4 ==> (#[trigger] sm.buttons_map@[i]).color == 2,
            sm.buttons_map@[0].text@ == "1"@,
            sm.buttons_map@[1].text@ == "2"@,
            sm.buttons_map@[2].text@ == "3"@,
            sm.buttons_map@[3].text@ == "4"@,
            forall|i: int| 0 <= i < 8 ==> sm.flags.colors@[i] == 0,
    {
        let mut buttons_map: Vec<Button> = Vec::new();
        buttons_map.push(Button::new(208, 191, 212, 199, 2, "1".to_string(), true));
        buttons_map.push(Button::new(213, 191, 217, 199, 2, "2".to_string(), false));
        buttons_map.push(Button::new(218, 191, 222, 199, 2, "3".to_string(), false));
        buttons_map.push(Button::new(223, 191, 228, 199, 2, "4".to_string(), false));

        SpritesMap {
            buttons_x1: 208,
            buttons_y1: 191,
            buttons_x2: 228,
            buttons_y2: 199,
            buttons_map,
            flags: Flags::new(),
        }
    }

    /// One frame of the sprite bank.  On a held left button, the bank
    /// buttons' hit flags are recomputed and a hit button selects its bank;
    /// a hit thumbnail then selects a sprite of the active bank.  Finally
    /// the flag panel runs against the (possibly re-)selected sprite.
    pub fn update(&mut self, state: &mut State, surface: &mut Surface)
        requires
            old(self).wf(),
            old(state).wf(),
            old(surface).wf(),
        ensures
            final(self).wf(),
            final(state).wf(),
            final(surface).wf(),
            *final(state) == spec_bank_state_after(*old(state)),
            final(surface).sheet@ == old(surface).sheet@,
            final(surface).map@ == old(surface).map@,
            final(surface).flags@.len() == old(surface).flags@.len(),
            forall|i: int|
                0 <= i < 8 ==> final(surface).flags@[final(state).current_sprite * 8 + i]
                    == Flags::spec_bit_after(*final(state), *old(surface), i),
            forall|k: int|
                0 <= k < 256 * 8 && !(final(state).current_sprite * 8 <= k
                    < final(state).current_sprite * 8 + 8) ==> final(surface).flags@[k]
                    == old(surface).flags@[k],
            forall|i: int|
                0 <= i < 8 ==> final(self).flags.colors@[i] == crate::flags::spec_flag_color(
                    Flags::spec_bit_after(*final(state), *old(surface), i),
                ),
            forall|i: int|
                0 <= i < 4 ==> final(self).buttons_map@[i] == (if old(state).mouse_state
                    == MOUSE_LEFT && in_rect(
                    old(state).mouse_x as int,
                    old(state).mouse_y as int,
                    208,
                    191,
                    228,
                    199,
                ) {
                    Button {
                        clicked: spec_bank_button_hit(
                            old(state).mouse_x as int,
                            old(state).mouse_y as int,
                            i,
                        ),
                        ..old(self).buttons_map@[i]
                    }
                } else {
                    old(self).buttons_map@[i]
                }),
    {
        state.on_current_sprite = false;

        if state.mouse_state == MOUSE_LEFT {
            let mouse_x = state.mouse_x;
            let mouse_y = state.mouse_y;

            if point_in_rect(
                mouse_x,
                mouse_y,
                self.buttons_x1,
                self.buttons_y1,
                self.buttons_x2,
                self.buttons_y2,
            ) {
                let mut btn_idx: usize = 0;
                while btn_idx < 4
                    invariant
                        self.wf(),
                        state.wf(),
                        btn_idx <= 4,
                        mouse_x == state.mouse_x && mouse_y == state.mouse_y,
                        state.mouse_state == old(state).mouse_state,
                        forall|i: int|
                            0 <= i < btn_idx ==> self.buttons_map@[i] == (Button {
                                clicked: spec_bank_button_hit(mouse_x as int, mouse_y as int, i),
                                ..old(self).buttons_map@[i]
                            }),
                        forall|i: int|
                            btn_idx <= i < 4 ==> self.buttons_map@[i] == old(
                                self,
                            ).buttons_map@[i],
                        self.flags == old(self).flags,
                        spec_bank_scan_state(
                            *old(state),
                            *state,
                            mouse_x as int,
                            mouse_y as int,
                            btn_idx as int,
                        ),
                    decreases 4 - btn_idx,
                {
                    let b = &mut self.buttons_map[btn_idx];
                    b.update(mouse_x, mouse_y);
                    let clicked = b.is_click();
                    if clicked {
                        state.idx_map = btn_idx as u32;
                        state.current_sprite = 64 * (btn_idx as u32);
                    }
                    btn_idx = btn_idx + 1;
                }
            }

            let idx_sprites_batch = state.idx_sprites_batch;
            if mouse_x >= 0 && mouse_x < 128 && mouse_y >= idx_sprites_batch && mouse_y
                < idx_sprites_batch + 32 {
                let y: u32 = ((mouse_y - idx_sprites_batch) / 8) as u32;
                let x: u32 = (mouse_x / 8) as u32;

                let idx_map = state.idx_map;
                state.current_sprite = (x + y * 16) + 64 * idx_map;

                let current_sprite = state.current_sprite;
                state.x_zoom_sprite = (current_sprite % 16) * 8;
                state.y_zoom_sprite = (current_sprite / 16) * 8;
            }
        }

        self.flags.update(state, surface);
    }

    /// The thumbnail command for slot `k` of the 16x4 grid: sprite
    /// `64 * bank + k` drawn at its natural size, 16 slots to a row.
    pub open spec fn thumb_cmd(state: State, k: int) -> DrawCmd {
        DrawCmd::Sprite {
            index: (64 * state.idx_map + k) as u32,
            x: (8 * (k % 16)) as i32,
            y: (state.idx_sprites_batch + 8 * (k / 16)) as i32,
        }
    }

    /// Screen x of the active sprite's thumbnail.
    pub open spec fn spec_thumb_px(state: State) -> int {
        8 * (((state.current_sprite - 64 * state.idx_map)) % 16)
    }

    /// Screen y of the active sprite's thumbnail.
    pub open spec fn spec_thumb_py(state: State) -> int {
        state.idx_sprites_batch + 8 * (((state.current_sprite - 64 * state.idx_map)) / 16)
    }

    /// Inner ring (color 7) of the active-sprite highlight, sized to the
    /// sprite zoom factor.
    pub open spec fn ring_inner_cmd(state: State) -> DrawCmd {
        DrawCmd::RectOutline {
            x1: (Self::spec_thumb_px(state) - 1) as i32,
            y1: Self::spec_thumb_py(state) as i32,
            x2: (Self::spec_thumb_px(state) - 1 + 8 * state.zoom_sprite) as i32,
            y2: (Self::spec_thumb_py(state) + 8 * state.zoom_sprite) as i32,
            color: 7,
        }
    }

    /// Outer ring (color 0) of the active-sprite highlight.
    pub open spec fn ring_outer_cmd(state: State) -> DrawCmd {
        DrawCmd::RectOutline {
            x1: (Self::spec_thumb_px(state) - 2) as i32,
            y1: (Self::spec_thumb_py(state) - 1) as i32,
            x2: (Self::spec_thumb_px(state) + 8 * state.zoom_sprite) as i32,
            y2: (Self::spec_thumb_py(state) + 1 + 8 * state.zoom_sprite) as i32,
            color: 0,
        }
    }

    /// Append the active bank's 16x4 thumbnail grid and the two-ring
    /// highlight around the active sprite's thumbnail.
    pub fn draw_sprite_map(&self, state: &State, cmds: &mut Vec<DrawCmd>)
        requires
            self.wf(),
            state.wf(),
        ensures
            final(cmds)@.len() == old(cmds)@.len() + 66,
            forall|j: int| 0 <= j < old(cmds)@.len() ==> final(cmds)@[j] == old(cmds)@[j],
            forall|k: int|
                0 <= k < 64 ==> final(cmds)@[old(cmds)@.len() + k] == Self::thumb_cmd(*state, k),
            final(cmds)@[old(cmds)@.len() + 64int] == Self::ring_inner_cmd(*state),
            final(cmds)@[old(cmds)@.len() + 65int] == Self::ring_outer_cmd(*state),
    {
        let ghost base = cmds@.len() as int;
        let zoom: i32 = state.zoom_sprite as i32;
        let mut k: u32 = 0;
        while k < 64
            invariant
                self.wf(),
                state.wf(),
                k <= 64,
                base == old(cmds)@.len(),
                cmds@.len() == base + k,
                forall|j: int| 0 <= j < base ==> cmds@[j] == old(cmds)@[j],
                forall|j: int| 0 <= j < k ==> cmds@[base + j] == Self::thumb_cmd(*state, j),
            decreases 64 - k,
        {
            let idx: u32 = state.idx_map * 64 + k;
            let x: i32 = (8 * (k % 16)) as i32;
            let y: i32 = state.idx_sprites_batch + (8 * (k / 16)) as i32;
            let cmd = DrawCmd::Sprite { index: idx, x, y };
            proof {
                assert(cmd == Self::thumb_cmd(*state, k as int));
            }
            let ghost prev = cmds@;
            cmds.push(cmd);
            k = k + 1;
            proof {
                assert(forall|j: int|
                    0 <= j < k - 1 ==> #[trigger] prev.push(cmd)[base + j] == prev[base + j]);
            }
        }
        let delta: u32 = state.current_sprite - 64 * state.idx_map;
        let current_sprite_x: i32 = (8 * (delta % 16)) as i32 - 1;
        let current_sprite_y: i32 = state.idx_sprites_batch + (8 * (delta / 16)) as i32;
        cmds.push(
            DrawCmd::RectOutline {
                x1: current_sprite_x,
                y1: current_sprite_y,
                x2: current_sprite_x + 8 * zoom,
                y2: current_sprite_y + 8 * zoom,
                color: 7,
            },
        );
        cmds.push(
            DrawCmd::RectOutline {
                x1: current_sprite_x - 1,
                y1: current_sprite_y - 1,
                x2: current_sprite_x + 1 + 8 * zoom,
                y2: current_sprite_y + 1 + 8 * zoom,
                color: 0,
            },
        );
    }

    /// Append the flag panel's eight indicators.
    pub fn draw_sprite_flags(&self, cmds: &mut Vec<DrawCmd>)
        requires
            self.wf(),
        ensures
            final(cmds)@.len() == old(cmds)@.len() + 8,
            forall|j: int| 0 <= j < old(cmds)@.len() ==> final(cmds)@[j] == old(cmds)@[j],
            forall|i: int|
                0 <= i < 8 ==> final(cmds)@[old(cmds)@.len() + i] == self.flags.indicator_cmd(i),
    {
        self.flags.draw(cmds);
    }

    /// Append the four bank buttons, each a filled rectangle and a label.
    pub fn draw_button(&self, cmds: &mut Vec<DrawCmd>)
        requires
            self.wf(),
        ensures
            final(cmds)@.len() == old(cmds)@.len() + 8,
            forall|j: int| 0 <= j < old(cmds)@.len() ==> final(cmds)@[j] == old(cmds)@[j],
            forall|i: int|
                0 <= i < 4 ==> final(cmds)@[old(cmds)@.len() + 2 * i]
                    == self.buttons_map@[i].fill_cmd() && final(cmds)@[old(cmds)@.len() + 2 * i
                    + 1] == self.buttons_map@[i].label_cmd(),
    {
        let ghost base = cmds@.len() as int;
        let mut i: usize = 0;
        while i < 4
            invariant
                self.wf(),
                i <= 4,
                base == old(cmds)@.len(),
                cmds@.len() == base + 2 * i,
                forall|j: int| 0 <= j < base ==> cmds@[j] == old(cmds)@[j],
                forall|j: int|
                    0 <= j < i ==> cmds@[base + 2 * j] == self.buttons_map@[j].fill_cmd()
                        && cmds@[base + 2 * j + 1] == self.buttons_map@[j].label_cmd(),
            decreases 4 - i,
        {
            let ghost prev = cmds@;
            let b = &self.buttons_map[i];
            b.draw(cmds);
            i = i + 1;
            proof {
                assert(forall|j: int|
                    0 <= j < prev.len() ==> #[trigger] cmds@[j] == prev[j]);
            }
        }
    }

    /// Append the bank's status text: the hovered map cell when the hover
    /// flag is set, then the active sprite's index.
    pub fn draw_information(&self, state: &State, cmds: &mut Vec<DrawCmd>)
        ensures
            final(cmds)@.len() == old(cmds)@.len() + (if state.on_current_sprite {
                2int
            } else {
                1int
            }),
            forall|j: int| 0 <= j < old(cmds)@.len() ==> final(cmds)@[j] == old(cmds)@[j],
            state.on_current_sprite ==> final(cmds)@[old(cmds)@.len() as int] == (DrawCmd::NumPair {
                a: state.on_current_sprite_x,
                b: state.on_current_sprite_y,
                x: 0,
                y: 232,
                color: 5,
            }),
            final(cmds)@[final(cmds)@.len() - 1] == (DrawCmd::Num {
                value: state.current_sprite,
                x: 64,
                y: 191,
                color: 7,
            }),
    {
        if state.on_current_sprite {
            cmds.push(
                DrawCmd::NumPair {
                    a: state.on_current_sprite_x,
                    b: state.on_current_sprite_y,
                    x: 0,
                    y: 232,
                    color: 5,
                },
            );
        }
        cmds.push(DrawCmd::Num { value: state.current_sprite, x: 64, y: 191, color: 7 });
    }

    /// Append the whole sprite bank: thumbnails and highlight, flag
    /// indicators, bank buttons, status text, in that order.
    pub fn draw(&self, state: &State, cmds: &mut Vec<DrawCmd>)
        requires
            self.wf(),
            state.wf(),
        ensures
            final(cmds)@.len() == old(cmds)@.len() + 82 + (if state.on_current_sprite {
                2int
            } else {
                1int
            }),
            forall|j: int| 0 <= j < old(cmds)@.len() ==> final(cmds)@[j] == old(cmds)@[j],
            forall|k: int|
                0 <= k < 64 ==> final(cmds)@[old(cmds)@.len() + k] == Self::thumb_cmd(*state, k),
            final(cmds)@[old(cmds)@.len() + 64int] == Self::ring_inner_cmd(*state),
            final(cmds)@[old(cmds)@.len() + 65int] == Self::ring_outer_cmd(*state),
            forall|i: int|
                0 <= i < 8 ==> final(cmds)@[old(cmds)@.len() + 66 + i]
                    == self.flags.indicator_cmd(i),
            forall|i: int|
                0 <= i < 4 ==> final(cmds)@[old(cmds)@.len() + 74 + 2 * i]
                    == self.buttons_map@[i].fill_cmd() && final(cmds)@[old(cmds)@.len() + 75 + 2
                    * i] == self.buttons_map@[i].label_cmd(),
            final(cmds)@[final(cmds)@.len() - 1] == (DrawCmd::Num {
                value: state.current_sprite,
                x: 64,
                y: 191,
                color: 7,
            }),
    {
        self.draw_sprite_map(state, cmds);
        self.draw_sprite_flags(cmds);
        self.draw_button(cmds);
        self.draw_information(state, cmds);
    }
}

} // verus!
