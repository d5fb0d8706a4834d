//! The top-level editor: per-frame orchestration of the sprite bank, the
//! two editing modes and the mode-switch widgets.
//!
//! One call of [`Editor::draw`] is one frame.  It refreshes the input
//! snapshot, runs the update pass (sprite bank, then the active mode's
//! editor, then the mode-switch widgets), and returns the frame's draw
//! commands: clear, chrome, sprite bank, active editor, widgets, in that
//! order.  Update and draw are deliberately one entry point so their order
//! cannot be broken by a caller.

use vstd::prelude::*;

use crate::clickable::Button;
use crate::clickable::Widget;
use crate::clickable::WidgetKind;
use crate::draw::DrawCmd;
use crate::flags::Flags;
use crate::geom::in_rect;
use crate::input::FrameInput;
use crate::input::State;
use crate::input::MOUSE_LEFT;
use crate::map_editor::spec_paint_block;
use crate::map_editor::MapEditor;
use crate::palette::PalettePicker;
use crate::sprite_bank::spec_bank_state_after;
use crate::sprite_bank::SpritesMap;
use crate::sprite_editor::spec_state_after_zoom_cycle;
use crate::sprite_editor::SpriteEditor;
use crate::surface::Surface;

verus! {

/// Which editor is active.  Exactly one is, and transitions happen only
/// through the mode-switch widgets.
#[derive(Clone, Copy, PartialEq, Eq, Structural, Debug)]
pub enum EditorState {
    SpriteEditing,
    MapEditing,
}

/// Does this frame's input click the sprite-mode widget (a held left
/// button inside its glyph)?
pub open spec fn spec_sprites_widget_clicked(input: FrameInput) -> bool {
    input.mouse_state == MOUSE_LEFT && in_rect(
        input.mouse_x as int,
        input.mouse_y as int,
        222,
        1,
        230,
        7,
    )
}

/// Does this frame's input click the map-mode widget?
pub open spec fn spec_map_widget_clicked(input: FrameInput) -> bool {
    input.mouse_state == MOUSE_LEFT && in_rect(
        input.mouse_x as int,
        input.mouse_y as int,
        231,
        1,
        239,
        7,
    )
}

/// The top-level editor.
pub struct Editor {
    /// Shared per-frame state: input snapshot and selection.
    pub state: State,
    pub state_editor: EditorState,
    pub sm: SpritesMap,
    pub me: MapEditor,
    pub se: SpriteEditor,
    /// The two mode-switch widgets: sprites first, map second.
    pub widgets: Vec<Widget>,
}

impl Editor {
    pub open spec fn wf(self) -> bool {
        &&& self.state.wf()
        &&& self.sm.wf()
        &&& self.me.wf()
        &&& self.se.wf()
        &&& self.widgets@.len() == 2
        &&& self.widgets@[0].wf() && self.widgets@[0].kind == WidgetKind::Sprites
            && self.widgets@[0].x1 == 222 && self.widgets@[0].y1 == 1 && self.widgets@[0].x2
            == 230 && self.widgets@[0].y2 == 7
        &&& self.widgets@[1].wf() && self.widgets@[1].kind == WidgetKind::MapSheet
            && self.widgets@[1].x1 == 231 && self.widgets@[1].y1 == 1 && self.widgets@[1].x2
            == 239 && self.widgets@[1].y2 == 7
    }

    /// While map editing is active, the map editor's cache is an exact
    /// replica of the persisted grid.
    pub open spec fn replica_ok(self, surface: Surface) -> bool {
        self.state_editor == EditorState::MapEditing ==> self.me.cache@ == surface.map@
    }

    pub fn new() -> (e: Editor)
        ensures
            e.wf(),
            e.state_editor == EditorState::SpriteEditing,
            e.state.mouse_x == 0 && e.state.mouse_y == 0,
            e.state.mouse_state == 0 && e.state.mouse_statep == 0,
            e.state.current_sprite == 0 && e.state.idx_map == 0,
            e.state.zoom_sprite == 1 && e.state.idx_zoom_sprite == 0,
            e.state.x_zoom_sprite == 0 && e.state.y_zoom_sprite == 0,
            e.state.on_current_sprite == false,
            e.me.offset_x == 0 && e.me.offset_y == 0 && e.me.zoom_denom == 1,
            e.me.select_x == 0 && e.me.select_y == 8,
            e.widgets@[0].clicked == false && e.widgets@[1].clicked == false,
            e.sm.buttons_map@[0].clicked == true,
            forall|i: int| 1 <= i < 4 ==> (#[trigger] e.sm.buttons_map@[i]).clicked == false,
    {
        let mut widgets: Vec<Widget> = Vec::new();
        let sprites_glyph: Vec<u8> = vec![
            6, 11, 11, 11, 11, 11, 11, 6, 11, 6, 6, 6, 6, 6, 6, 11, 11, 6, 11, 11, 11, 11, 6, 11,
            11, 6, 11, 11, 11, 11, 6, 11, 11, 6, 6, 6, 6, 6, 6, 11, 6, 11, 11, 11, 11, 11, 11, 6,
        ];
        let map_glyph: Vec<u8> = vec![
            11, 11, 11, 11, 11, 11, 11, 11, 11, 6, 6, 6, 6, 6, 6, 11, 11, 6, 11, 11, 11, 11, 6,
            11, 11, 6, 11, 11, 11, 11, 6, 11, 11, 6, 6, 6, 6, 6, 6, 11, 11, 11, 11, 11, 11, 11,
            11, 11,
        ];
        widgets.push(Widget::new(WidgetKind::Sprites, 222, 1, 8, 6, sprites_glyph));
        widgets.push(Widget::new(WidgetKind::MapSheet, 231, 1, 8, 6, map_glyph));

        Editor {
            state: State::new(),
            state_editor: EditorState::SpriteEditing,
            sm: SpritesMap::new(),
            me: MapEditor::new(),
            se: SpriteEditor::new(),
            widgets,
        }
    }

    /// One-time setup: the display mode this editor is laid out for, as
    /// (width, height).  The host switches its display to this mode and
    /// makes the mouse cursor visible before the first frame.
    pub fn init(&self) -> (mode: (u32, u32))
        ensures
            mode.0 == 240 && mode.1 == 236,
    {
        (240, 236)
    }

    /// Poll the two mode-switch widgets against the current snapshot and
    /// apply a click: the map widget switches to map editing and reloads
    /// the map cache from the persisted grid (exactly this one reload); the
    /// sprites widget switches back without reloading or touching anything
    /// else.  With no click the mode stays.
    pub fn apply_mode_widgets(&mut self, surface: &Surface)
        requires
            old(self).wf(),
            surface.wf(),
        ensures
            final(self).wf(),
            ({
                let input = FrameInput {
                    mouse_x: old(self).state.mouse_x,
                    mouse_y: old(self).state.mouse_y,
                    mouse_state: old(self).state.mouse_state,
                    mouse_statep: old(self).state.mouse_statep,
                    pan_left: false,
                    pan_right: false,
                    pan_up: false,
                    pan_down: false,
                    zoom_cycle: false,
                };
                let sprites_clicked = spec_sprites_widget_clicked(input);
                let map_clicked = spec_map_widget_clicked(input);
                &&& final(self).state_editor == (if map_clicked {
                    EditorState::MapEditing
                } else if sprites_clicked {
                    EditorState::SpriteEditing
                } else {
                    old(self).state_editor
                })
                &&& (map_clicked ==> final(self).me.cache@ == surface.map@ && final(self).me
                    == (MapEditor { cache: final(self).me.cache, ..old(self).me }))
                &&& (!map_clicked ==> final(self).me == old(self).me)
                &&& final(self).state == old(self).state
                &&& final(self).sm == old(self).sm
                &&& final(self).se == old(self).se
            }),
    {
        {
            let w = &mut self.widgets[0];
            w.update(&self.state);
        }
        {
            let w = &mut self.widgets[1];
            w.update(&self.state);
        }
        let sprites_clicked = self.widgets[0].is_click();
        let map_clicked = self.widgets[1].is_click();
        if sprites_clicked {
            self.state_editor = EditorState::SpriteEditing;
        }
        if map_clicked {
            self.state_editor = EditorState::MapEditing;
            self.me.init(surface);
        }
    }

    /// Run one frame: refresh the snapshot, update the sprite bank, update
    /// the active editor, poll the mode-switch widgets, then emit the draw
    /// commands (clear, chrome, sprite bank, active editor, widgets).
    ///
    /// The returned command list starts with a clear; the caller replays it
    /// against its raster backend and measures the frame's wall-clock time
    /// itself if it wants the elapsed-time diagnostic.
    #[verifier::rlimit(80)]
    pub fn draw(&mut self, input: &FrameInput, surface: &mut Surface) -> (cmds: Vec<DrawCmd>)
        requires
            old(self).wf(),
            old(surface).wf(),
            old(self).replica_ok(*old(surface)),
        ensures
            final(self).wf(),
            final(surface).wf(),
            final(self).replica_ok(*final(surface)),
            cmds@.len() > 6 && cmds@[0] == DrawCmd::Cls,
            cmds@[1] == (DrawCmd::RectFill { x1: 0, y1: 0, x2: 240, y2: 8, color: 11 }),
            cmds@[2] == (DrawCmd::RectFill { x1: 0, y1: 232, x2: 240, y2: 240, color: 11 }),
            cmds@[3] == (DrawCmd::RectFill { x1: 0, y1: 139, x2: 240, y2: 199, color: 5 }),
            cmds@[4] == (DrawCmd::RectFill { x1: 0, y1: 9, x2: 8, y2: 189, color: 5 }),
            cmds@[5] == (DrawCmd::RectFill { x1: 140, y1: 9, x2: 240, y2: 190, color: 5 }),
            final(self).state_editor == EditorState::SpriteEditing ==> cmds@.len() == 203,
            final(self).state_editor == EditorState::MapEditing ==> cmds@.len() == 188
                + MapEditor::spec_map_cmds(
                final(self).me,
                MapEditor::spec_visible_rows(final(self).me) * MapEditor::spec_visible_cols(
                    final(self).me,
                ),
            ).len(),
            forall|k: int|
                0 <= k < 64 ==> cmds@[6 + k] == SpritesMap::thumb_cmd(final(self).state, k),
            cmds@[70] == SpritesMap::ring_inner_cmd(final(self).state),
            cmds@[71] == SpritesMap::ring_outer_cmd(final(self).state),
            forall|i: int| 0 <= i < 8 ==> cmds@[72 + i] == final(self).sm.flags.indicator_cmd(i),
            forall|i: int|
                0 <= i < 4 ==> cmds@[80 + 2 * i] == final(self).sm.buttons_map@[i].fill_cmd()
                    && cmds@[81 + 2 * i] == final(self).sm.buttons_map@[i].label_cmd(),
            cmds@[88] == (DrawCmd::Num {
                value: final(self).state.current_sprite,
                x: 64,
                y: 191,
                color: 7,
            }),
            final(self).state_editor == EditorState::SpriteEditing ==> {
                &&& (forall|i: int|
                    0 <= i < 16 ==> cmds@[89 + i] == final(self).se.pp.swatch_cmd(i))
                &&& cmds@[105] == final(self).se.pp.selection_cmd()
                &&& cmds@[106] == (DrawCmd::StretchBlit {
                    src_x: final(self).state.x_zoom_sprite,
                    src_y: final(self).state.y_zoom_sprite,
                    src_w: (8 * final(self).state.zoom_sprite) as u32,
                    src_h: (8 * final(self).state.zoom_sprite) as u32,
                    dst_x: final(self).state.idx_x_zoom_sprite as i32,
                    dst_y: final(self).state.idx_y_zoom_sprite as i32,
                    dst_w: 128,
                    dst_h: 128,
                })
            },
            final(self).state_editor == EditorState::MapEditing ==> {
                let m = final(self).me;
                let blits = MapEditor::spec_map_cmds(
                    m,
                    MapEditor::spec_visible_rows(m) * MapEditor::spec_visible_cols(m),
                );
                &&& cmds@[89] == MapEditor::clear_cmd(m)
                &&& (forall|j: int| 0 <= j < blits.len() ==> cmds@[90 + j] == blits[j])
                &&& cmds@[90 + blits.len() as int] == MapEditor::sel_cmd(m, final(self).state)
                &&& cmds@[91 + blits.len() as int] == MapEditor::info_cmd(m)
            },
            forall|k: int|
                0 <= k < 48 ==> cmds@[cmds@.len() - 96 + k] == final(self).widgets@[0].glyph_cmd(
                    k,
                ),
            forall|k: int|
                0 <= k < 48 ==> cmds@[cmds@.len() - 48 + k] == final(self).widgets@[1].glyph_cmd(
                    k,
                ),
            ({
                let s0 = State {
                    mouse_x: input.mouse_x,
                    mouse_y: input.mouse_y,
                    mouse_state: input.mouse_state,
                    mouse_statep: input.mouse_statep,
                    ..old(self).state
                };
                let s1 = spec_bank_state_after(s0);
                let sprites_clicked = spec_sprites_widget_clicked(*input);
                let map_clicked = spec_map_widget_clicked(*input);
                &&& final(self).state == (if old(self).state_editor
                    == EditorState::SpriteEditing {
                    spec_state_after_zoom_cycle(s1, input.zoom_cycle)
                } else {
                    s1
                })
                &&& final(self).state_editor == (if map_clicked {
                    EditorState::MapEditing
                } else if sprites_clicked {
                    EditorState::SpriteEditing
                } else {
                    old(self).state_editor
                })
                &&& (map_clicked ==> final(self).me.cache@ == final(surface).map@)
                &&& (!map_clicked && old(self).state_editor == EditorState::SpriteEditing
                    ==> final(self).me == old(self).me)
                &&& (!map_clicked && old(self).state_editor == EditorState::MapEditing ==> {
                    let me1 = MapEditor::spec_after_pan(old(self).me, *input);
                    let painting = MapEditor::spec_canvas_hover(s1) && s1.mouse_state
                        == MOUSE_LEFT;
                    &&& final(self).me.offset_x == me1.offset_x && final(self).me.offset_y
                        == me1.offset_y
                    &&& final(self).me.idx_zoom == me1.idx_zoom && final(self).me.zoom_denom
                        == me1.zoom_denom && final(self).me.size_sprite == me1.size_sprite
                    &&& (painting ==> final(self).me.cache@ == spec_paint_block(
                        old(self).me.cache@,
                        s1.current_sprite as int,
                        MapEditor::spec_cell_x(me1, s1),
                        MapEditor::spec_cell_y(me1, s1),
                        s1.zoom_sprite as int,
                        (s1.zoom_sprite as int) * (s1.zoom_sprite as int),
                    ))
                    &&& (!painting ==> final(self).me.cache@ == old(self).me.cache@)
                })
                &&& (forall|i: int|
                    0 <= i < 4 ==> final(self).sm.buttons_map@[i] == (if s0.mouse_state
                        == MOUSE_LEFT && in_rect(
                        s0.mouse_x as int,
                        s0.mouse_y as int,
                        208,
                        191,
                        228,
                        199,
                    ) {
                        Button {
                            clicked: crate::sprite_bank::spec_bank_button_hit(
                                s0.mouse_x as int,
                                s0.mouse_y as int,
                                i,
                            ),
                            ..old(self).sm.buttons_map@[i]
                        }
                    } else {
                        old(self).sm.buttons_map@[i]
                    }))
                &&& (forall|i: int|
                    0 <= i < 8 ==> final(self).sm.flags.colors@[i]
                        == crate::flags::spec_flag_color(
                        Flags::spec_bit_after(s1, *old(surface), i),
                    ))
                &&& (old(self).state_editor == EditorState::MapEditing ==> final(surface).sheet@
                    == old(surface).sheet@)
                &&& (old(self).state_editor == EditorState::SpriteEditing
                    ==> final(surface).map@ == old(surface).map@ && final(surface).sheet@
                    == PalettePicker::spec_sheet_after(
                    old(self).se.pp,
                    s1,
                    old(surface).sheet@,
                ) && final(self).se.pp == PalettePicker::spec_picker_after(old(self).se.pp, s1))
                &&& (old(self).state_editor == EditorState::MapEditing ==> {
                    let me1 = MapEditor::spec_after_pan(old(self).me, *input);
                    let painting = MapEditor::spec_canvas_hover(s1) && s1.mouse_state
                        == MOUSE_LEFT;
                    &&& (painting ==> final(surface).map@ == spec_paint_block(
                        old(surface).map@,
                        s1.current_sprite as int,
                        MapEditor::spec_cell_x(me1, s1),
                        MapEditor::spec_cell_y(me1, s1),
                        s1.zoom_sprite as int,
                        (s1.zoom_sprite as int) * (s1.zoom_sprite as int),
                    ))
                    &&& (!painting ==> final(surface).map@ == old(surface).map@)
                })
                &&& (forall|i: int|
                    0 <= i < 8 ==> final(surface).flags@[s1.current_sprite * 8 + i]
                        == Flags::spec_bit_after(s1, *old(surface), i))
                &&& (forall|k: int|
                    0 <= k < 256 * 8 && !(s1.current_sprite * 8 <= k < s1.current_sprite * 8
                        + 8) ==> final(surface).flags@[k] == old(surface).flags@[k])
            }),
    {
        let mut cmds: Vec<DrawCmd> = Vec::new();
        cmds.push(DrawCmd::Cls);

        self.state.update(input);
        self.sm.update(&mut self.state, surface);
        match self.state_editor {
            EditorState::SpriteEditing => {
                self.se.update(input, &mut self.state, surface);
            },
            EditorState::MapEditing => {
                self.me.update(input, &self.state, surface);
            },
        }

        self.apply_mode_widgets(surface);

        let width: i32 = 240;
        cmds.push(DrawCmd::RectFill { x1: 0, y1: 0, x2: width, y2: 8, color: 11 });
        cmds.push(DrawCmd::RectFill { x1: 0, y1: width - 8, x2: width, y2: width, color: 11 });
        cmds.push(DrawCmd::RectFill { x1: 0, y1: 139, x2: width, y2: 199, color: 5 });
        cmds.push(DrawCmd::RectFill { x1: 0, y1: 9, x2: 8, y2: 189, color: 5 });
        cmds.push(DrawCmd::RectFill { x1: 140, y1: 9, x2: width, y2: 190, color: 5 });

        self.sm.draw(&self.state, &mut cmds);
        let ghost pre_editor = cmds@;

        match self.state_editor {
            EditorState::SpriteEditing => {
                self.se.draw(&self.state, &mut cmds);
            },
            EditorState::MapEditing => {
                self.me.draw(&self.state, &mut cmds);
                proof {
                    let m = self.me;
                    let st = self.state;
                    let total = MapEditor::spec_visible_rows(m) * MapEditor::spec_visible_cols(
                        m,
                    );
                    let blits = MapEditor::spec_map_cmds(m, total);
                    let combined = (pre_editor.push(MapEditor::clear_cmd(m))
                        + blits).push(MapEditor::sel_cmd(m, st)).push(MapEditor::info_cmd(m));
                    assert(cmds@ == combined);
                    assert(combined.len() == pre_editor.len() + 3 + blits.len());
                    assert(forall|j: int|
                        0 <= j < pre_editor.len() ==> #[trigger] combined[j] == pre_editor[j]);
                    assert(combined[pre_editor.len() as int] == MapEditor::clear_cmd(m));
                    assert(forall|j: int|
                        0 <= j < blits.len() ==> #[trigger] combined[pre_editor.len() + 1 + j]
                            == blits[j]);
                    assert(combined[combined.len() - 2] == MapEditor::sel_cmd(m, st));
                    assert(combined[combined.len() - 1] == MapEditor::info_cmd(m));
                }
            },
        }

        {
            let w = &self.widgets[0];
            proof {
                assert(w.wf() && w.x1 == 222 && w.x2 == 230 && w.y1 == 1 && w.y2 == 7);
                assert(w.w == 8 && w.h == 6);
                assert(w.w * w.h == 48) by (nonlinear_arith)
                    requires
                        w.w == 8,
                        w.h == 6,
                ;
                assert(w.data@.len() == 48);
            }
            w.draw(&mut cmds);
        }
        {
            let w = &self.widgets[1];
            proof {
                assert(w.wf() && w.x1 == 231 && w.x2 == 239 && w.y1 == 1 && w.y2 == 7);
                assert(w.w == 8 && w.h == 6);
                assert(w.w * w.h == 48) by (nonlinear_arith)
                    requires
                        w.w == 8,
                        w.h == 6,
                ;
                assert(w.data@.len() == 48);
            }
            w.draw(&mut cmds);
        }
        proof {
            assert(!self.state.on_current_sprite);
        }

        cmds
    }

    /// The per-frame hook a host may call before `draw`; the editor keeps
    /// no separate update entry point (see `draw`), so this always reports
    /// that the editor wants to keep running.
    pub fn update(&mut self) -> (r: bool)
        ensures
            r,
            *final(self) == *old(self),
    {
        true
    }
}

} // verus!
