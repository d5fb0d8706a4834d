//! Flag panel: eight boolean toggles bound to the active sprite's metadata
//! bits, rendered as colored indicators.
//!
//! Toggling is level-triggered: for every frame the left button is held
//! inside a bit's hit box, that bit flips again.  This differs on purpose
//! from the palette canvas, whose painting is edge-triggered; the asymmetry
//! is part of the component's observable behaviour and is kept as such.

use vstd::prelude::*;

use crate::draw::DrawCmd;
use crate::geom::in_rect;
use crate::geom::point_in_rect;
use crate::input::State;
use crate::input::MOUSE_LEFT;
use crate::surface::Surface;

verus! {

/// Screen y band of the flag indicators.
pub const FLAG_ROW_Y: i32 = 193;

/// The hit box of flag bit `i`: a 2x2 box at x = 128 + 6 * i.
pub open spec fn spec_flag_hit(mx: int, my: int, i: int) -> bool {
    in_rect(mx, my, 128 + 6 * i, 193, 130 + 6 * i, 195)
}

/// Indicator color of a flag value: 11 when set, 8 when clear.
pub open spec fn spec_flag_color(v: bool) -> u32 {
    if v {
        11
    } else {
        8
    }
}

/// The flag panel: the indicator color last computed for each of the eight
/// bits of the active sprite.
pub struct Flags {
    /// Indicator colors, one per bit; length 8.
    pub colors: Vec<u32>,
}

impl Flags {
    pub open spec fn wf(self) -> bool {
        self.colors@.len() == 8
    }

    pub fn new() -> (f: Flags)
        ensures
            f.wf(),
            forall|i: int| 0 <= i < 8 ==> f.colors@[i] == 0,
    {
        let mut colors: Vec<u32> = Vec::new();
        colors.resize(8, 0);
        Flags { colors }
    }

    /// The flag value of bit `i` of the active sprite after this frame:
    /// flipped when the held button sits inside bit `i`'s box, kept
    /// otherwise.
    pub open spec fn spec_bit_after(state: State, surface: Surface, i: int) -> bool {
        let was = surface.flags@[state.current_sprite * 8 + i];
        if state.mouse_state == MOUSE_LEFT && spec_flag_hit(
            state.mouse_x as int,
            state.mouse_y as int,
            i,
        ) {
            !was
        } else {
            was
        }
    }

    /// One frame of the flag panel: each of the eight bits flips while the
    /// held button sits inside its box, and every indicator color is
    /// recomputed from the bit's value after any toggle, so drawing always
    /// reflects the persisted state.
    pub fn update(&mut self, state: &State, surface: &mut Surface)
        requires
            old(self).wf(),
            state.wf(),
            old(surface).wf(),
        ensures
            final(self).wf(),
            final(surface).wf(),
            final(surface).sheet@ == old(surface).sheet@,
            final(surface).map@ == old(surface).map@,
            final(surface).flags@.len() == old(surface).flags@.len(),
            forall|i: int|
                0 <= i < 8 ==> final(surface).flags@[state.current_sprite * 8 + i]
                    == Self::spec_bit_after(*state, *old(surface), i),
            forall|k: int|
                0 <= k < 256 * 8 && !(state.current_sprite * 8 <= k < state.current_sprite * 8
                    + 8) ==> final(surface).flags@[k] == old(surface).flags@[k],
            forall|i: int|
                0 <= i < 8 ==> final(self).colors@[i] == spec_flag_color(
                    Self::spec_bit_after(*state, *old(surface), i),
                ),
    {
        let idx_sprite = state.current_sprite;
        let mut i: u32 = 0;
        while i < 8
            invariant
                self.wf(),
                state.wf(),
                surface.wf(),
                idx_sprite == state.current_sprite,
                i <= 8,
                surface.sheet@ == old(surface).sheet@,
                surface.map@ == old(surface).map@,
                surface.flags@.len() == old(surface).flags@.len(),
                forall|j: int|
                    0 <= j < i ==> surface.flags@[idx_sprite * 8 + j] == Self::spec_bit_after(
                        *state,
                        *old(surface),
                        j,
                    ),
                forall|k: int|
                    0 <= k < 256 * 8 && !(idx_sprite * 8 <= k < idx_sprite * 8 + i)
                        ==> surface.flags@[k] == old(surface).flags@[k],
                forall|j: int|
                    0 <= j < i ==> self.colors@[j] == spec_flag_color(
                        Self::spec_bit_after(*state, *old(surface), j),
                    ),
                forall|j: int| i <= j < 8 ==> self.colors@[j] == old(self).colors@[j],
            decreases 8 - i,
        {
            let hit = state.mouse_state == MOUSE_LEFT && point_in_rect(
                state.mouse_x,
                state.mouse_y,
                128 + 6 * (i as i32),
                FLAG_ROW_Y,
                130 + 6 * (i as i32),
                FLAG_ROW_Y + 2,
            );
            if hit {
                let was = surface.fget(idx_sprite, i);
                surface.fset(idx_sprite, i, !was);
            }
            let flag = surface.fget(idx_sprite, i);
            let color: u32 = if flag {
                11
            } else {
                8
            };
            self.colors.set(i as usize, color);
            i = i + 1;
        }
    }

    /// The indicator command for bit `i`, filled with that bit's last
    /// computed color.
    pub open spec fn indicator_cmd(self, i: int) -> DrawCmd {
        DrawCmd::RectFill {
            x1: (128 + 6 * i) as i32,
            y1: 193,
            x2: (130 + 6 * i) as i32,
            y2: 195,
            color: self.colors@[i] as i32,
        }
    }

    /// Append the eight flag indicators.
    pub fn draw(&self, cmds: &mut Vec<DrawCmd>)
        requires
            self.wf(),
        ensures
            final(cmds)@.len() == old(cmds)@.len() + 8,
            forall|j: int| 0 <= j < old(cmds)@.len() ==> final(cmds)@[j] == old(cmds)@[j],
            forall|i: int|
                0 <= i < 8 ==> final(cmds)@[old(cmds)@.len() + i] == self.indicator_cmd(i),
    {
        let ghost base = cmds@.len() as int;
        let mut i: u32 = 0;
        while i < 8
            invariant
                self.wf(),
                i <= 8,
                base == old(cmds)@.len(),
                cmds@.len() == base + i,
                forall|j: int| 0 <= j < base ==> cmds@[j] == old(cmds)@[j],
                forall|j: int| 0 <= j < i ==> cmds@[base + j] == self.indicator_cmd(j),
            decreases 8 - i,
        {
            let x: i32 = 128 + 6 * (i as i32);
            let cmd = DrawCmd::RectFill {
                x1: x,
                y1: FLAG_ROW_Y,
                x2: x + 2,
                y2: FLAG_ROW_Y + 2,
                color: self.colors[i as usize] as i32,
            };
            proof {
                assert(cmd == self.indicator_cmd(i as int));
            }
            let ghost prev = cmds@;
            cmds.push(cmd);
            i = i + 1;
            proof {
                assert(forall|j: int|
                    0 <= j < i - 1 ==> #[trigger] prev.push(cmd)[base + j] == prev[base + j]);
            }
        }
    }
}

} // verus!
