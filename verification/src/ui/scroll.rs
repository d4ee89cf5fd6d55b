//! Geometry of scroll areas and their bars.

use vstd::prelude::*;

use super::layout::LayoutDirection;
use super::rect::{fits_i32, UiRect};

verus! {

/// How far scrolled content may extend: a quarter of the `i32` range.
pub const BOUNDS_LIMIT: i32 = 536870911;

/// The bounds that the content of a scroll area is laid out in: on each axis
/// that scrolls, the side the layout grows towards is opened up to
/// [`BOUNDS_LIMIT`].
pub open spec fn spec_scroll_content_bounds(
    b: UiRect,
    dir: LayoutDirection,
    scroll_x: bool,
    scroll_y: bool,
) -> UiRect {
    let b1 = if scroll_x {
        match dir {
            LayoutDirection::LeftRight(_) => UiRect { max_x: BOUNDS_LIMIT, ..b },
            LayoutDirection::RightLeft(_) => UiRect { min_x: (-BOUNDS_LIMIT) as i32, ..b },
            LayoutDirection::Center => UiRect { min_x: (-BOUNDS_LIMIT) as i32, max_x: BOUNDS_LIMIT, ..b },
            _ => b,
        }
    } else {
        b
    };
    if scroll_y {
        match dir {
            LayoutDirection::TopDown(_) => UiRect { max_y: BOUNDS_LIMIT, ..b1 },
            LayoutDirection::BottomUp(_) => UiRect { min_y: (-BOUNDS_LIMIT) as i32, ..b1 },
            LayoutDirection::Center => UiRect { min_y: (-BOUNDS_LIMIT) as i32, max_y: BOUNDS_LIMIT, ..b1 },
            _ => b1,
        }
    } else {
        b1
    }
}

/// The bounds that the content of a scroll area is laid out in.
pub fn scroll_content_bounds(b: UiRect, dir: LayoutDirection, scroll_x: bool, scroll_y: bool) -> (r: UiRect)
    ensures
        r == spec_scroll_content_bounds(b, dir, scroll_x, scroll_y),
{
    let mut bounds = b;
    if scroll_x {
        match dir {
            LayoutDirection::LeftRight(_) => {
                bounds.max_x = BOUNDS_LIMIT;
            },
            LayoutDirection::RightLeft(_) => {
                bounds.min_x = -BOUNDS_LIMIT;
            },
            LayoutDirection::Center => {
                bounds.min_x = -BOUNDS_LIMIT;
                bounds.max_x = BOUNDS_LIMIT;
            },
            _ => {},
        }
    }
    if scroll_y {
        match dir {
            LayoutDirection::TopDown(_) => {
                bounds.max_y = BOUNDS_LIMIT;
            },
            LayoutDirection::BottomUp(_) => {
                bounds.min_y = -BOUNDS_LIMIT;
            },
            LayoutDirection::Center => {
                bounds.min_y = -BOUNDS_LIMIT;
                bounds.max_y = BOUNDS_LIMIT;
            },
            _ => {},
        }
    }
    bounds
}

/// On an axis that scrolls, the content bounds keep the edge the layout starts
/// from and open the edge it grows towards to [`BOUNDS_LIMIT`] (a centered
/// layout opens both); an axis that does not scroll, or along which the
/// layout does not run, keeps both edges of `b`.
pub proof fn lemma_scroll_content_keeps_start_edge(
    b: UiRect,
    dir: LayoutDirection,
    scroll_x: bool,
    scroll_y: bool,
)
    ensures
        ({
            let r = spec_scroll_content_bounds(b, dir, scroll_x, scroll_y);
            &&& (scroll_x && dir is LeftRight) ==> r.min_x == b.min_x && r.max_x == BOUNDS_LIMIT
            &&& (scroll_x && dir is RightLeft) ==> r.min_x == -BOUNDS_LIMIT && r.max_x == b.max_x
            &&& (scroll_x && dir is Center) ==> r.min_x == -BOUNDS_LIMIT && r.max_x == BOUNDS_LIMIT
            &&& (!scroll_x || dir is TopDown || dir is BottomUp) ==> r.min_x == b.min_x && r.max_x
                == b.max_x
            &&& (scroll_y && dir is TopDown) ==> r.min_y == b.min_y && r.max_y == BOUNDS_LIMIT
            &&& (scroll_y && dir is BottomUp) ==> r.min_y == -BOUNDS_LIMIT && r.max_y == b.max_y
            &&& (scroll_y && dir is Center) ==> r.min_y == -BOUNDS_LIMIT && r.max_y == BOUNDS_LIMIT
            &&& (!scroll_y || dir is LeftRight || dir is RightLeft) ==> r.min_y == b.min_y && r.max_y
                == b.max_y
        }),
{
}

/// `a - b`, saturating at the bounds of `i32`.
pub open spec fn sat_sub_i32(a: int, b: int) -> int {
    if a - b > i32::MAX {
        i32::MAX as int
    } else if a - b < i32::MIN {
        i32::MIN as int
    } else {
        a - b
    }
}

/// `a - b`, saturating at the bounds of `i32`.
pub fn saturating_sub_i32(a: i32, b: i32) -> (r: i32)
    ensures
        r == sat_sub_i32(a as int, b as int),
{
    let d: i64 = a as i64 - b as i64;
    if d > i32::MAX as i64 {
        i32::MAX
    } else if d < i32::MIN as i64 {
        i32::MIN
    } else {
        d as i32
    }
}

/// How far the content of a scroll area can scroll on one axis: the part of
/// the content's extent that does not fit in the viewport, less a line and
/// the bar.
pub fn scroll_extent(content: i32, viewport: i32, line_height: i32, bar: i32) -> (r: i32)
    requires
        fits_i32(line_height + bar),
    ensures
        r == sat_sub_i32(content as int, sat_sub_i32(viewport as int, line_height + bar)),
{
    saturating_sub_i32(content, saturating_sub_i32(viewport, line_height + bar))
}

/// The track and the handle of a vertical scroll bar of `width` at the right
/// edge of `scissor`, with the handle's top at `y`.
pub fn vertical_bar_rects(scissor: UiRect, width: i32, y: i32) -> (r: (UiRect, UiRect))
    requires
        fits_i32(scissor.max_x - width),
        fits_i32(y + width),
    ensures
        r.0 == (UiRect {
            min_x: (scissor.max_x - width) as i32,
            min_y: scissor.min_y,
            max_x: scissor.max_x,
            max_y: scissor.max_y,
        }),
        r.1 == (UiRect {
            min_x: (scissor.max_x - width) as i32,
            min_y: y,
            max_x: scissor.max_x,
            max_y: (y + width) as i32,
        }),
{
    let track = UiRect {
        min_x: scissor.max_x - width,
        min_y: scissor.min_y,
        max_x: scissor.max_x,
        max_y: scissor.max_y,
    };
    let x = saturating_sub_i32(scissor.max_x, width);
    let handle = UiRect { min_x: x, min_y: y, max_x: scissor.max_x, max_y: y + width };
    (track, handle)
}

/// The track and the handle of a horizontal scroll bar of `height` at the
/// bottom edge of `scissor`, with the handle's left at `x`.
pub fn horizontal_bar_rects(scissor: UiRect, height: i32, x: i32) -> (r: (UiRect, UiRect))
    requires
        fits_i32(scissor.max_y - height),
        fits_i32(x + height),
    ensures
        r.0 == (UiRect {
            min_x: scissor.min_x,
            min_y: (scissor.max_y - height) as i32,
            max_x: scissor.max_x,
            max_y: scissor.max_y,
        }),
        r.1 == (UiRect {
            min_x: x,
            min_y: (scissor.max_y - height) as i32,
            max_x: (x + height) as i32,
            max_y: scissor.max_y,
        }),
{
    let track = UiRect {
        min_x: scissor.min_x,
        min_y: scissor.max_y - height,
        max_x: scissor.max_x,
        max_y: scissor.max_y,
    };
    let handle = UiRect {
        min_x: x,
        min_y: scissor.max_y - height,
        max_x: x + height,
        max_y: scissor.max_y,
    };
    (track, handle)
}

} // verus!
