//! Authoring core of a fantasy-console development tool: a pixel-level
//! sprite editor, a tile-map editor, and the sprite-bank/flag browser that
//! feeds both.
//!
//! The library owns the editor's data model (sprite-atlas pixels, per-sprite
//! flag bits, the persistent tile grid) and the per-frame state machine that
//! turns an input snapshot into edits of that model.  Rendering is expressed
//! as a list of draw commands; a host translates the commands to a real
//! raster backend and polls the platform for the input snapshot that drives
//! each frame.
//!
//! Every hit test in the crate uses the same half-open containment rule
//! `[x1, x2) x [y1, y2)`, stated by `geom::in_rect`.

pub mod clickable;
pub mod draw;
pub mod editor;
pub mod flags;
pub mod geom;
pub mod input;
pub mod map_editor;
pub mod palette;
pub mod sprite_bank;
pub mod sprite_editor;
pub mod surface;
