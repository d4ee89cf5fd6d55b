//! Geometry and dragging of windows and panels.

use vstd::prelude::*;

use super::ids::{spec_sentinel, InteractionFlag, NextUiIdSet, NextUiIds, UiId, UiIds};
use super::interaction::{request_add, set_not_active, spec_request_add, spec_set_not_active, Pointer};
use super::layout::{HorizontalAlignment, IVec2, VerticalAlignment};
use super::rect::{fits_i32, rect, spec_shrink_x, spec_shrink_y, UiRect};
use super::{fnv_1a, native_bytes_of_words, spec_fnv_1a, spec_half, spec_half_ceil, words_be, words_le};

verus! {

/// The content bounds and the title bar of a window at `pos` of `size`
/// (title bar included).
pub open spec fn spec_window_frame(pos: IVec2, size: IVec2, title_height: u8, padding: u8) -> (UiRect, UiRect) {
    let width = size.x as int;
    let height = size.y - title_height;
    (
        rect(pos.x as int, pos.y + title_height, pos.x + width, pos.y + title_height + height),
        rect(pos.x as int, pos.y as int, pos.x + width + 2 * padding, pos.y + title_height),
    )
}

/// The content bounds and the title bar of a window.
pub fn window_frame(pos: IVec2, size: IVec2, title_height: u8, padding: u8) -> (r: (UiRect, UiRect))
    requires
        fits_i32(size.y - title_height),
        fits_i32(pos.y + title_height),
        fits_i32(pos.x + size.x),
        fits_i32(pos.y + title_height + (size.y - title_height)),
        fits_i32(size.x + 2 * padding),
        fits_i32(pos.x + size.x + 2 * padding),
    ensures
        r == spec_window_frame(pos, size, title_height, padding),
{
    let padding = padding as i32;
    let th = title_height as i32;
    let width = size.x;
    let height = size.y - th;
    let bounds = UiRect {
        min_x: pos.x,
        min_y: pos.y + th,
        max_x: pos.x + width,
        max_y: pos.y + th + height,
    };
    let title_bounds = UiRect {
        min_x: pos.x,
        min_y: pos.y,
        max_x: pos.x + width + 2 * padding,
        max_y: pos.y + th,
    };
    (bounds, title_bounds)
}

/// The size of a window around content of the given size: the padding on
/// both sides, at least five pixels of height, and the title bar.
pub open spec fn spec_window_size(content_w: int, content_h: int, padding: u8, title_height: u8) -> IVec2 {
    let h = content_h + 2 * padding;
    IVec2 {
        x: (content_w + 2 * padding) as i32,
        y: ((if h >= 5 {
            h
        } else {
            5
        }) + title_height) as i32,
    }
}

/// The size of a window around content of the given size.
pub fn window_size(content_w: i32, content_h: i32, padding: u8, title_height: u8) -> (r: IVec2)
    requires
        fits_i32(content_w + 2 * padding),
        fits_i32(content_h + 2 * padding),
        fits_i32(content_h + 2 * padding + title_height),
    ensures
        r == spec_window_size(content_w as int, content_h as int, padding, title_height),
{
    let padding = padding as i32;
    let w = content_w + 2 * padding;
    let h = content_h + 2 * padding;
    let h = if h >= 5 {
        h
    } else {
        5
    };
    IVec2::new(w, h + title_height as i32)
}

/// What a window's title bar does this frame.
#[derive(Debug, Clone, Copy, PartialEq, Eq, Structural)]
pub struct TitleDrag {
    /// The window follows the pointer this frame.
    pub follows: bool,
    /// A drag starts this frame; the caller records the pointer and the
    /// window's position.
    pub starts: bool,
}

/// The requests of a title bar: while active it moves the window with the
/// pointer and lets go on release; pressed while nothing is active, it starts
/// a drag.
pub open spec fn spec_title_drag(
    st: super::ids::UiIdsState,
    sets: Seq<NextUiIdSet>,
    id: UiId,
    layer: u16,
    p: Pointer,
) -> (Seq<NextUiIdSet>, TitleDrag) {
    if st.active == id {
        (
            if p.up {
                spec_set_not_active(sets, st.active, id, layer)
            } else {
                sets
            },
            TitleDrag { follows: true, starts: false },
        )
    } else if st.active == spec_sentinel() && p.contains && p.down {
        (
            spec_request_add(sets, id, layer, InteractionFlag::Active),
            TitleDrag { follows: false, starts: true },
        )
    } else {
        (sets, TitleDrag { follows: false, starts: false })
    }
}

/// React to the pointer as a window's title bar.
pub fn title_drag_interaction(ids: &UiIds, next: &mut NextUiIds, id: UiId, layer: u16, p: Pointer) -> (r: TitleDrag)
    ensures
        (final(next).0@, r) == spec_title_drag(ids@, old(next).0@, id, layer, p),
{
    if ids.is_active(id) {
        if p.up {
            set_not_active(ids, next, id, layer);
        }
        TitleDrag { follows: true, starts: false }
    } else if !ids.is_anything_active() && p.contains && p.down {
        request_add(next, id, layer, InteractionFlag::Active);
        TitleDrag { follows: false, starts: true }
    } else {
        TitleDrag { follows: false, starts: false }
    }
}

/// The bounds of a panel of `width` by `height` in `old`: resized about the
/// middle, then pushed to the left or top edge of the screen, or to the right
/// or bottom edge of `old`.
pub open spec fn spec_panel_bounds(
    old: UiRect,
    width: int,
    height: int,
    horizontal: HorizontalAlignment,
    vertical: VerticalAlignment,
) -> UiRect {
    let b1 = spec_shrink_x(old, (old.max_x - old.min_x) - width);
    let b2 = spec_shrink_y(b1, (old.max_y - old.min_y) - height);
    let b3 = match horizontal {
        HorizontalAlignment::Left => rect(0, b2.min_y as int, b2.max_x - b2.min_x, b2.max_y as int),
        HorizontalAlignment::Right => rect(
            b2.min_x + (old.max_x - b2.max_x),
            b2.min_y as int,
            old.max_x as int,
            b2.max_y as int,
        ),
        HorizontalAlignment::Center => b2,
    };
    match vertical {
        VerticalAlignment::Top => rect(b3.min_x as int, 0, b3.max_x as int, b3.max_y - b3.min_y),
        VerticalAlignment::Bottom => rect(
            b3.min_x as int,
            b3.min_y + (old.max_y - b3.max_y),
            b3.max_x as int,
            old.max_y as int,
        ),
        VerticalAlignment::Center => b3,
    }
}

/// Every intermediate value of [`panel_bounds`] fits in an `i32`.
pub open spec fn panel_fits(
    old: UiRect,
    width: int,
    height: int,
    horizontal: HorizontalAlignment,
    vertical: VerticalAlignment,
) -> bool {
    let dw = (old.max_x - old.min_x) - width;
    let dh = (old.max_y - old.min_y) - height;
    let b1 = spec_shrink_x(old, dw);
    let b2 = spec_shrink_y(b1, dh);
    let b3 = match horizontal {
        HorizontalAlignment::Left => rect(0, b2.min_y as int, b2.max_x - b2.min_x, b2.max_y as int),
        HorizontalAlignment::Right => rect(
            b2.min_x + (old.max_x - b2.max_x),
            b2.min_y as int,
            old.max_x as int,
            b2.max_y as int,
        ),
        HorizontalAlignment::Center => b2,
    };
    &&& fits_i32(old.max_x - old.min_x)
    &&& fits_i32(old.max_y - old.min_y)
    &&& fits_i32(width - (old.max_x - old.min_x)) && width - (old.max_x - old.min_x) != i32::MIN
    &&& fits_i32(height - (old.max_y - old.min_y)) && height - (old.max_y - old.min_y) != i32::MIN
    &&& fits_i32(old.min_x + spec_half(dw)) && fits_i32(old.max_x - spec_half_ceil(dw))
    &&& fits_i32(old.min_y + spec_half(dh)) && fits_i32(old.max_y - spec_half_ceil(dh))
    &&& match horizontal {
        HorizontalAlignment::Left => b2.min_x != i32::MIN && fits_i32(b2.max_x - b2.min_x),
        HorizontalAlignment::Right => fits_i32(old.max_x - b2.max_x) && fits_i32(
            b2.min_x + (old.max_x - b2.max_x),
        ),
        HorizontalAlignment::Center => true,
    }
    &&& match vertical {
        VerticalAlignment::Top => b3.min_y != i32::MIN && fits_i32(b3.max_y - b3.min_y),
        VerticalAlignment::Bottom => fits_i32(old.max_y - b3.max_y) && fits_i32(
            b3.min_y + (old.max_y - b3.max_y),
        ),
        VerticalAlignment::Center => true,
    }
}

/// The bounds of a panel of `width` by `height` within `old`.
pub fn panel_bounds(
    old: UiRect,
    width: i32,
    height: i32,
    horizontal: HorizontalAlignment,
    vertical: VerticalAlignment,
) -> (r: UiRect)
    requires
        panel_fits(old, width as int, height as int, horizontal, vertical),
    ensures
        r == spec_panel_bounds(old, width as int, height as int, horizontal, vertical),
{
    let mut bounds = old;
    bounds.resize_w(width);
    bounds.resize_h(height);
    match horizontal {
        HorizontalAlignment::Left => {
            let delta = -bounds.min_x;
            bounds.offset_x(delta);
        },
        HorizontalAlignment::Right => {
            let delta = old.max_x - bounds.max_x;
            bounds.offset_x(delta);
        },
        HorizontalAlignment::Center => {},
    }
    match vertical {
        VerticalAlignment::Top => {
            let delta = -bounds.min_y;
            bounds.offset_y(delta);
        },
        VerticalAlignment::Bottom => {
            let delta = old.max_y - bounds.max_y;
            bounds.offset_y(delta);
        },
        VerticalAlignment::Center => {},
    }
    bounds
}

/// The root hash of a panel: the FNV-1a hash of zero, its corner and its
/// size, as 32-bit words in the machine's byte order.
pub fn panel_root_hash(bounds: UiRect, width: i32, height: i32) -> (h: u32)
    ensures
        ({
            let words = seq![0u32, bounds.min_x as u32, bounds.min_y as u32, width as u32, height as u32];
            h == spec_fnv_1a(words_le(words)) || h == spec_fnv_1a(words_be(words))
        }),
{
    let words: Vec<u32> = vec![0u32, bounds.min_x as u32, bounds.min_y as u32, width as u32, height as u32];
    let bytes = native_bytes_of_words(&words);
    fnv_1a(bytes.as_slice())
}

} // verus!
