//! Sprites drawn from a sheet laid out as a grid of equal boxes.
//!
//! Where a box lies in the sheet's pixels is floating point and is computed
//! by the renderer; which grid cell an index names is decided here.

use vstd::prelude::*;

use crate::color::Color;

verus! {

/// One sprite of a sheet.
#[derive(Debug, Clone, Copy)]
pub struct SpriteInstance {
    /// The sprite's box, counted row by row.
    pub index: u32,
    /// Mirror the sprite horizontally.
    pub flip: bool,
    /// The color that replaces the sheet's mask color, when the sheet has one.
    pub color: Color,
}

impl Default for SpriteInstance {
    /// The first sprite, unflipped, with the default color.
    fn default() -> (r: Self)
        ensures
            r.index == 0,
            !r.flip,
            r.color.0 == 0xff,
    {
        SpriteInstance { index: 0, flip: false, color: Color::default() }
    }
}

/// The column and row of the box `index` in a grid `num_cols` boxes wide.
pub fn sprite_cell(index: u32, num_cols: u32) -> (cell: (u32, u32))
    requires
        num_cols > 0,
    ensures
        cell.0 == index % num_cols,
        cell.1 == index / num_cols,
        cell.0 < num_cols,
        cell.1 * num_cols + cell.0 == index,
{
    let row: u32 = index / num_cols;
    assert(num_cols * row <= index) by (nonlinear_arith)
        requires
            num_cols > 0,
            row == index / num_cols,
    ;
    assert(index - num_cols * row == index % num_cols) by (nonlinear_arith)
        requires
            num_cols > 0,
            row == index / num_cols,
    ;
    let col: u32 = index - num_cols * row;
    (col, row)
}

/// The mask color as the renderer reads it: the red, green and blue bytes,
/// or zero when the sheet has no mask color.
pub fn gpu_mask_color(mask_color: Option<Color>) -> (r: u32)
    ensures
        r == match mask_color {
            Some(c) => c.0 / 0x100,
            None => 0,
        },
{
    match mask_color {
        Some(c) => {
            let v: u32 = c.0;
            assert(v >> 8u32 == v / 0x100) by (bit_vector);
            v >> 8u32
        },
        None => 0,
    }
}

} // verus!
