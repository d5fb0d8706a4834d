//! Sprite editor: the palette picker composed over a zoomed view of the
//! selected sprite, plus the sprite zoom cycle.

use vstd::prelude::*;

use crate::draw::DrawCmd;
use crate::input::spec_zoom_for_index;
use crate::input::zoom_for_index;
use crate::input::FrameInput;
use crate::input::State;
use crate::palette::PalettePicker;
use crate::surface::Surface;

verus! {

/// The sprite editor owns the palette picker; the zoom factor itself lives
/// in the shared state, where the sprite bank and the map editor read it.
pub struct SpriteEditor {
    pub pp: PalettePicker,
}

/// The shared state after a zoom-cycle trigger: the cycle index advances
/// circularly through {0, 1, 2} and the zoom factor follows it through
/// {1, 2, 4}.  Without the trigger nothing moves.
pub open spec fn spec_state_after_zoom_cycle(state: State, trigger: bool) -> State {
    if trigger {
        State {
            idx_zoom_sprite: ((state.idx_zoom_sprite + 1) % 3) as u32,
            zoom_sprite: spec_zoom_for_index(((state.idx_zoom_sprite + 1) % 3) as u32),
            ..state
        }
    } else {
        state
    }
}

/// Law: the zoom cycle is circular.  Starting anywhere, three triggers
/// return the state to itself, and from the initial index the visited zoom
/// factors are 1, 2, 4, 1, 2, 4, ... in order.
pub proof fn lemma_zoom_cycle_circular(state: State)
    requires
        state.wf(),
    ensures
        spec_state_after_zoom_cycle(
            spec_state_after_zoom_cycle(spec_state_after_zoom_cycle(state, true), true),
            true,
        ) == state,
        state.idx_zoom_sprite == 0 ==> {
            let s1 = spec_state_after_zoom_cycle(state, true);
            let s2 = spec_state_after_zoom_cycle(s1, true);
            let s3 = spec_state_after_zoom_cycle(s2, true);
            state.zoom_sprite == 1 && s1.zoom_sprite == 2 && s2.zoom_sprite == 4
                && s3.zoom_sprite == 1
        },
{
}

impl SpriteEditor {
    pub open spec fn wf(self) -> bool {
        self.pp.wf()
    }

    pub fn new() -> (se: SpriteEditor)
        ensures
            se.wf(),
            se.pp.current_color == 0,
    {
        SpriteEditor { pp: PalettePicker::new() }
    }

    /// One frame of the sprite editor: the palette picker runs on this
    /// frame's snapshot, then a zoom-cycle trigger advances the sprite zoom
    /// factor circularly through {1, 2, 4}.
    pub fn update(&mut self, input: &FrameInput, state: &mut State, surface: &mut Surface)
        requires
            old(self).wf(),
            old(state).wf(),
            old(surface).wf(),
        ensures
            final(self).wf(),
            final(state).wf(),
            final(surface).wf(),
            final(surface).flags@ == old(surface).flags@,
            final(surface).map@ == old(surface).map@,
            final(surface).sheet@ == PalettePicker::spec_sheet_after(
                old(self).pp,
                *old(state),
                old(surface).sheet@,
            ),
            final(self).pp == PalettePicker::spec_picker_after(old(self).pp, *old(state)),
            *final(state) == spec_state_after_zoom_cycle(*old(state), input.zoom_cycle),
    {
        self.pp.update(state, surface);

        if input.zoom_cycle {
            let new_idx_zoom_sprite = (state.idx_zoom_sprite + 1) % 3;
            state.idx_zoom_sprite = new_idx_zoom_sprite;
            state.zoom_sprite = zoom_for_index(new_idx_zoom_sprite);
        }
    }

    /// Append the sprite editor's visual: the palette picker's grid, then
    /// the zoomed sprite canvas — the `8 * zoom` square at the selected
    /// sprite's atlas origin stretched over the fixed 128x128 canvas.
    pub fn draw(&self, state: &State, cmds: &mut Vec<DrawCmd>)
        requires
            self.wf(),
            state.wf(),
        ensures
            final(cmds)@.len() == old(cmds)@.len() + 18,
            forall|j: int| 0 <= j < old(cmds)@.len() ==> final(cmds)@[j] == old(cmds)@[j],
            forall|i: int|
                0 <= i < 16 ==> final(cmds)@[old(cmds)@.len() + i] == self.pp.swatch_cmd(i),
            final(cmds)@[old(cmds)@.len() + 16int] == self.pp.selection_cmd(),
            final(cmds)@[old(cmds)@.len() + 17int] == (DrawCmd::StretchBlit {
                src_x: state.x_zoom_sprite,
                src_y: state.y_zoom_sprite,
                src_w: (8 * state.zoom_sprite) as u32,
                src_h: (8 * state.zoom_sprite) as u32,
                dst_x: state.idx_x_zoom_sprite as i32,
                dst_y: state.idx_y_zoom_sprite as i32,
                dst_w: 128,
                dst_h: 128,
            }),
    {
        self.pp.draw(cmds);

        cmds.push(
            DrawCmd::StretchBlit {
                src_x: state.x_zoom_sprite,
                src_y: state.y_zoom_sprite,
                src_w: 8 * state.zoom_sprite,
                src_h: 8 * state.zoom_sprite,
                dst_x: state.idx_x_zoom_sprite as i32,
                dst_y: state.idx_y_zoom_sprite as i32,
                dst_w: 128,
                dst_h: 128,
            },
        );
    }
}

} // verus!
