//! Draw commands: the rendering half of a frame, as data.
//!
//! The update pass mutates the editor's data model; the draw pass only
//! appends commands to a list.  A host replays the list against a real
//! raster backend (clipping anything that falls outside the display).

use vstd::prelude::*;

verus! {

/// One raster primitive.  Coordinates are display pixels, origin top-left;
/// colors are palette indices.
#[derive(Debug)]
pub enum DrawCmd {
    /// Clear the whole display.
    Cls,
    /// Set a single pixel.
    Pset { x: i32, y: i32, color: i32 },
    /// Filled rectangle with corners (x1, y1) and (x2, y2), inclusive.
    RectFill { x1: i32, y1: i32, x2: i32, y2: i32, color: i32 },
    /// Rectangle outline with corners (x1, y1) and (x2, y2), inclusive.
    RectOutline { x1: i32, y1: i32, x2: i32, y2: i32, color: i32 },
    /// Text label.
    Text { text: String, x: i32, y: i32, color: i32 },
    /// A single number, printed in decimal.
    Num { value: u32, x: i32, y: i32, color: i32 },
    /// Two numbers, printed in decimal side by side.
    NumPair { a: u32, b: u32, x: i32, y: i32, color: i32 },
    /// Blit one 8x8 sprite of the atlas at its natural size.
    Sprite { index: u32, x: i32, y: i32 },
    /// Blit a src_w x src_h pixel region of the atlas, scaled to
    /// dst_w x dst_h display pixels.
    StretchBlit {
        src_x: u32,
        src_y: u32,
        src_w: u32,
        src_h: u32,
        dst_x: i32,
        dst_y: i32,
        dst_w: u32,
        dst_h: u32,
    },
}

} // verus!
