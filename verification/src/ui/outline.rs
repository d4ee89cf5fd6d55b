//! Geometry of outlined containers: where their content goes, and the rect
//! drawn with the outline around it.

use vstd::prelude::*;

use super::rect::{fits_i32, rect, rect_within, UiRect};

verus! {

/// The outline radius as the layout uses it: the radius as an `i32`,
/// wrapping as Rust's `as` does.
pub open spec fn radius_i32(radius: u32) -> int {
    (radius as i32) as int
}

/// The layout bounds of the content: `bounds` with its top-left corner moved
/// in by the padding and the outline radius.
pub open spec fn spec_outline_content_bounds(bounds: UiRect, pad: Seq<i32>, radius: u32) -> UiRect {
    rect(
        bounds.min_x + (pad[0] + radius_i32(radius)),
        bounds.min_y + (pad[2] + radius_i32(radius)),
        bounds.max_x as int,
        bounds.max_y as int,
    )
}

/// Move the top-left corner of `bounds` in by the padding (left, right, top,
/// bottom) and the outline radius.
pub fn outline_content_bounds(bounds: UiRect, padding: [i32; 4], radius: u32) -> (r: UiRect)
    requires
        fits_i32(padding@[0] + radius_i32(radius)),
        fits_i32(padding@[2] + radius_i32(radius)),
        fits_i32(bounds.min_x + (padding@[0] + radius_i32(radius))),
        fits_i32(bounds.min_y + (padding@[2] + radius_i32(radius))),
    ensures
        r == spec_outline_content_bounds(bounds, padding@, radius),
{
    let r = radius as i32;
    let mut b = bounds;
    b.min_x = b.min_x + (padding[0] + r);
    b.min_y = b.min_y + (padding[2] + r);
    b
}

/// The rect drawn with the outline: the content's bounding rect grown by the
/// padding and the outline radius on every side.
pub open spec fn spec_outline_rect(content: UiRect, pad: Seq<i32>, radius: u32) -> UiRect {
    rect(
        content.min_x - (pad[0] + radius_i32(radius)),
        content.min_y - (pad[2] + radius_i32(radius)),
        content.max_x + (pad[1] + radius_i32(radius)),
        content.max_y + (pad[3] + radius_i32(radius)),
    )
}

/// Every value [`outline_rect`] computes fits in an `i32`.
pub open spec fn outline_rect_fits(content: UiRect, pad: Seq<i32>, radius: u32) -> bool {
    &&& pad.len() == 4
    &&& forall|i: int| 0 <= i < 4 ==> #[trigger] fits_i32(pad[i] + radius_i32(radius))
    &&& fits_i32(content.min_x - (pad[0] + radius_i32(radius)))
    &&& fits_i32(content.min_y - (pad[2] + radius_i32(radius)))
    &&& fits_i32(content.max_x + (pad[1] + radius_i32(radius)))
    &&& fits_i32(content.max_y + (pad[3] + radius_i32(radius)))
}

/// Grow the content's bounding rect by the padding and the outline radius.
pub fn outline_rect(content: UiRect, padding: [i32; 4], radius: u32) -> (r: UiRect)
    requires
        outline_rect_fits(content, padding@, radius),
    ensures
        r == spec_outline_rect(content, padding@, radius),
{
    let r = radius as i32;
    assert(fits_i32(padding@[0] + radius_i32(radius)));
    assert(fits_i32(padding@[1] + radius_i32(radius)));
    assert(fits_i32(padding@[2] + radius_i32(radius)));
    assert(fits_i32(padding@[3] + radius_i32(radius)));
    let mut b = content;
    b.min_x = b.min_x - (padding[0] + r);
    b.max_x = b.max_x + (padding[1] + r);
    b.min_y = b.min_y - (padding[2] + r);
    b.max_y = b.max_y + (padding[3] + r);
    b
}

/// With padding and radius that are not negative, the outline surrounds the
/// content.
pub proof fn lemma_outline_surrounds_content(content: UiRect, pad: Seq<i32>, radius: u32)
    requires
        outline_rect_fits(content, pad, radius),
        forall|i: int| 0 <= i < 4 ==> #[trigger] pad[i] + radius_i32(radius) >= 0,
    ensures
        rect_within(content, spec_outline_rect(content, pad, radius)),
{
    assert(pad[0] + radius_i32(radius) >= 0);
    assert(pad[1] + radius_i32(radius) >= 0);
    assert(pad[2] + radius_i32(radius) >= 0);
    assert(pad[3] + radius_i32(radius) >= 0);
}

} // verus!
