//! The editor's data model: sprite-atlas pixels, per-sprite flag bits and
//! the persistent 128x32 tile grid.
//!
//! The atlas is 128 pixels wide and 128 pixels tall: 16 columns by 16 rows
//! of 8x8 sprites, 256 sprites in all.  Writes aimed outside the atlas or
//! outside the grid are no-ops, so a computed index that runs past an edge
//! never corrupts neighbouring data.

use vstd::prelude::*;

verus! {

/// Sprite pixels, flag bits and map cells, stored row-major.
pub struct Surface {
    /// Atlas pixels; entry `x + y * 128` is the color at (x, y).
    pub sheet: Vec<u32>,
    /// Flag bits; entry `sprite * 8 + bit` is that sprite's bit.
    pub flags: Vec<bool>,
    /// Map cells; entry `x + y * 128` is the sprite index at cell (x, y).
    pub map: Vec<u32>,
}

impl Surface {
    pub open spec fn wf(self) -> bool {
        &&& self.sheet@.len() == 128 * 128
        &&& self.flags@.len() == 256 * 8
        &&& self.map@.len() == 128 * 32
    }

    /// A blank surface: every pixel color 0, every flag clear, every map
    /// cell sprite 0.
    pub fn new() -> (s: Surface)
        ensures
            s.wf(),
            forall|i: int| 0 <= i < 128 * 128 ==> s.sheet@[i] == 0,
            forall|i: int| 0 <= i < 256 * 8 ==> s.flags@[i] == false,
            forall|i: int| 0 <= i < 128 * 32 ==> s.map@[i] == 0,
    {
        let mut sheet: Vec<u32> = Vec::new();
        let mut flags: Vec<bool> = Vec::new();
        let mut map: Vec<u32> = Vec::new();
        sheet.resize(128 * 128, 0);
        flags.resize(256 * 8, false);
        map.resize(128 * 32, 0);
        Surface { sheet, flags, map }
    }

    /// Set the atlas pixel at (x, y) to `color`; no-op outside the atlas.
    pub fn sset(&mut self, x: u32, y: u32, color: u32)
        requires
            old(self).wf(),
        ensures
            final(self).wf(),
            x < 128 && y < 128 ==> final(self).sheet@ == old(self).sheet@.update(
                x + y * 128,
                color,
            ),
            !(x < 128 && y < 128) ==> final(self).sheet@ == old(self).sheet@,
            final(self).flags@ == old(self).flags@,
            final(self).map@ == old(self).map@,
    {
        if x < 128 && y < 128 {
            let idx: usize = (x + y * 128) as usize;
            self.sheet.set(idx, color);
        }
    }

    /// Read the atlas pixel at (x, y).
    pub fn sget(&self, x: u32, y: u32) -> (color: u32)
        requires
            self.wf(),
            x < 128,
            y < 128,
        ensures
            color == self.sheet@[x + y * 128],
    {
        let idx: usize = (x + y * 128) as usize;
        self.sheet[idx]
    }

    /// Read flag bit `bit` of sprite `sprite`.
    pub fn fget(&self, sprite: u32, bit: u32) -> (v: bool)
        requires
            self.wf(),
            sprite < 256,
            bit < 8,
        ensures
            v == self.flags@[sprite * 8 + bit],
    {
        let idx: usize = (sprite * 8 + bit) as usize;
        self.flags[idx]
    }

    /// Set flag bit `bit` of sprite `sprite` to `value`.
    pub fn fset(&mut self, sprite: u32, bit: u32, value: bool)
        requires
            old(self).wf(),
            sprite < 256,
            bit < 8,
        ensures
            final(self).wf(),
            final(self).flags@ == old(self).flags@.update(sprite * 8 + bit, value),
            final(self).sheet@ == old(self).sheet@,
            final(self).map@ == old(self).map@,
    {
        let idx: usize = (sprite * 8 + bit) as usize;
        self.flags.set(idx, value);
    }

    /// Read the map cell at (x, y).
    pub fn mget(&self, x: u32, y: u32) -> (v: u32)
        requires
            self.wf(),
            x < 128,
            y < 32,
        ensures
            v == self.map@[x + y * 128],
    {
        let idx: usize = (x + y * 128) as usize;
        self.map[idx]
    }

    /// Write sprite index `value` into the map cell at (x, y); no-op
    /// outside the grid.
    pub fn mset(&mut self, x: u32, y: u32, value: u32)
        requires
            old(self).wf(),
        ensures
            final(self).wf(),
            x < 128 && y < 32 ==> final(self).map@ == old(self).map@.update(x + y * 128, value),
            !(x < 128 && y < 32) ==> final(self).map@ == old(self).map@,
            final(self).sheet@ == old(self).sheet@,
            final(self).flags@ == old(self).flags@,
    {
        if x < 128 && y < 32 {
            let idx: usize = (x + y * 128) as usize;
            self.map.set(idx, value);
        }
    }
}

} // verus!
