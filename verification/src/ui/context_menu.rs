//! Geometry of context menus and drop-down selections: where their content
//! is laid out, what is drawn around it, and what is clipped.

use vstd::prelude::*;

use super::layout::IVec2;
use super::rect::{fits_i32, max_int, min_int, rect, rect_within, UiRect};

verus! {

/// Width of the outline drawn around a context menu, in pixels.
pub const CONTEXT_MENU_OUTLINE: i32 = 2;

/// The horizontal and vertical padding sums of `pad` (left, right, top,
/// bottom).
pub open spec fn pad_h(pad: Seq<i32>) -> int {
    pad[0] + pad[1]
}

pub open spec fn pad_v(pad: Seq<i32>) -> int {
    pad[3] + pad[2]
}

/// The bounds a menu's content is laid out in: the anchor rect centered at
/// `offset`, reaching right and down to the screen's edges less the padding
/// and the outline.
pub open spec fn spec_menu_bounds(anchor: UiRect, offset: IVec2, screen: UiRect, pad: Seq<i32>) -> UiRect {
    let dx = offset.x - anchor.spec_center_x();
    let dy = offset.y - anchor.spec_center_y();
    rect(
        anchor.min_x + dx,
        anchor.min_y + dy,
        screen.max_x - pad_h(pad) - CONTEXT_MENU_OUTLINE,
        screen.max_y - pad_v(pad) - CONTEXT_MENU_OUTLINE,
    )
}

/// The clip rect of a menu: its bounds with the padding and the outline
/// added on every side.
pub open spec fn spec_menu_scissor(b: UiRect, pad: Seq<i32>) -> UiRect {
    rect(
        b.min_x - pad_h(pad) - CONTEXT_MENU_OUTLINE,
        b.min_y - pad_v(pad) - CONTEXT_MENU_OUTLINE,
        b.max_x + pad_h(pad) + CONTEXT_MENU_OUTLINE,
        b.max_y + pad_v(pad) + CONTEXT_MENU_OUTLINE,
    )
}

/// Every value [`menu_layout`] computes fits in an `i32`.
pub open spec fn menu_layout_fits(anchor: UiRect, offset: IVec2, screen: UiRect, pad: Seq<i32>) -> bool {
    let b = spec_menu_bounds(anchor, offset, screen, pad);
    let dx = offset.x - anchor.spec_center_x();
    let dy = offset.y - anchor.spec_center_y();
    &&& pad.len() == 4
    &&& fits_i32(pad_h(pad)) && fits_i32(pad_v(pad))
    &&& fits_i32(anchor.max_x - anchor.min_x) && fits_i32(anchor.max_y - anchor.min_y)
    &&& fits_i32(dx) && fits_i32(dy)
    &&& fits_i32(anchor.min_x + dx) && fits_i32(anchor.max_x + dx)
    &&& fits_i32(anchor.min_y + dy) && fits_i32(anchor.max_y + dy)
    &&& fits_i32(screen.max_x - pad_h(pad)) && fits_i32(screen.max_x - pad_h(pad) - CONTEXT_MENU_OUTLINE)
    &&& fits_i32(screen.max_y - pad_v(pad)) && fits_i32(screen.max_y - pad_v(pad) - CONTEXT_MENU_OUTLINE)
    &&& fits_i32(b.min_x - pad_h(pad)) && fits_i32(b.min_x - pad_h(pad) - CONTEXT_MENU_OUTLINE)
    &&& fits_i32(b.min_y - pad_v(pad)) && fits_i32(b.min_y - pad_v(pad) - CONTEXT_MENU_OUTLINE)
    &&& fits_i32(b.max_x + pad_h(pad)) && fits_i32(b.max_x + pad_h(pad) + CONTEXT_MENU_OUTLINE)
    &&& fits_i32(b.max_y + pad_v(pad)) && fits_i32(b.max_y + pad_v(pad) + CONTEXT_MENU_OUTLINE)
}

/// The bounds a menu anchored at `anchor` and opened at `offset` lays its
/// content out in, and the rect it is clipped to. `padding` is the theme's
/// padding in pixels (left, right, top, bottom).
pub fn menu_layout(anchor: UiRect, offset: IVec2, screen: UiRect, padding: [i32; 4]) -> (r: (UiRect, UiRect))
    requires
        menu_layout_fits(anchor, offset, screen, padding@),
    ensures
        r.0 == spec_menu_bounds(anchor, offset, screen, padding@),
        r.1 == spec_menu_scissor(r.0, padding@),
{
    let p_horizontal = padding[0] + padding[1];
    let p_vertical = padding[3] + padding[2];
    let mut bounds = anchor;
    bounds.move_to_x(offset.x);
    bounds.move_to_y(offset.y);
    bounds.max_x = screen.max_x - p_horizontal - CONTEXT_MENU_OUTLINE;
    bounds.max_y = screen.max_y - p_vertical - CONTEXT_MENU_OUTLINE;
    let scissor = UiRect {
        min_x: bounds.min_x - p_horizontal - CONTEXT_MENU_OUTLINE,
        min_y: bounds.min_y - p_vertical - CONTEXT_MENU_OUTLINE,
        max_x: bounds.max_x + p_horizontal + CONTEXT_MENU_OUTLINE,
        max_y: bounds.max_y + p_vertical + CONTEXT_MENU_OUTLINE,
    };
    (bounds, scissor)
}

/// The outline rect drawn around the laid out `content`: the content grown
/// over its corners pushed out by the padding and the outline.
pub open spec fn spec_menu_frame(content: UiRect, pad: Seq<i32>) -> UiRect {
    let lo_x = content.min_x - pad[0] - CONTEXT_MENU_OUTLINE;
    let lo_y = content.min_y - pad[2] - CONTEXT_MENU_OUTLINE;
    let hi_x = content.max_x + pad[1] + CONTEXT_MENU_OUTLINE;
    let hi_y = content.max_y + pad[3] + CONTEXT_MENU_OUTLINE;
    rect(
        min_int(min_int(content.min_x as int, lo_x), hi_x),
        min_int(min_int(content.min_y as int, lo_y), hi_y),
        max_int(max_int(content.max_x as int, lo_x), hi_x),
        max_int(max_int(content.max_y as int, lo_y), hi_y),
    )
}

/// The background drawn behind the content, as position and size: the
/// content with the padding added on every side.
pub open spec fn spec_menu_background(content: UiRect, pad: Seq<i32>) -> (int, int, int, int) {
    (
        content.min_x - pad[0],
        content.min_y - pad[2],
        (content.max_x - content.min_x) + pad_h(pad),
        (content.max_y - content.min_y) + pad_v(pad),
    )
}

/// Every value [`menu_frame`] computes fits in an `i32`.
pub open spec fn menu_frame_fits(content: UiRect, pad: Seq<i32>) -> bool {
    &&& pad.len() == 4
    &&& fits_i32(pad_h(pad)) && fits_i32(pad_v(pad))
    &&& fits_i32(content.min_x - pad[0]) && fits_i32(content.min_x - pad[0] - CONTEXT_MENU_OUTLINE)
    &&& fits_i32(content.min_y - pad[2]) && fits_i32(content.min_y - pad[2] - CONTEXT_MENU_OUTLINE)
    &&& fits_i32(content.max_x + pad[1]) && fits_i32(content.max_x + pad[1] + CONTEXT_MENU_OUTLINE)
    &&& fits_i32(content.max_y + pad[3]) && fits_i32(content.max_y + pad[3] + CONTEXT_MENU_OUTLINE)
    &&& fits_i32(content.max_x - content.min_x) && fits_i32(content.max_y - content.min_y)
    &&& fits_i32((content.max_x - content.min_x) + pad_h(pad))
    &&& fits_i32((content.max_y - content.min_y) + pad_v(pad))
}

/// The outline rect and the background (x, y, width, height) of a menu
/// whose content covers `content`.
pub fn menu_frame(content: UiRect, padding: [i32; 4]) -> (r: (UiRect, (i32, i32, i32, i32)))
    requires
        menu_frame_fits(content, padding@),
    ensures
        r.0 == spec_menu_frame(content, padding@),
        r.1.0 == spec_menu_background(content, padding@).0,
        r.1.1 == spec_menu_background(content, padding@).1,
        r.1.2 == spec_menu_background(content, padding@).2,
        r.1.3 == spec_menu_background(content, padding@).3,
{
    let p_horizontal = padding[0] + padding[1];
    let p_vertical = padding[3] + padding[2];
    let mut frame = content;
    frame = frame.grow_over_point(
        content.min_x - padding[0] - CONTEXT_MENU_OUTLINE,
        content.min_y - padding[2] - CONTEXT_MENU_OUTLINE,
    );
    frame = frame.grow_over_point(
        content.max_x + padding[1] + CONTEXT_MENU_OUTLINE,
        content.max_y + padding[3] + CONTEXT_MENU_OUTLINE,
    );
    let background = (
        content.min_x - padding[0],
        content.min_y - padding[2],
        content.width() + p_horizontal,
        content.height() + p_vertical,
    );
    (frame, background)
}

/// The outline drawn around a menu covers its content.
pub proof fn lemma_menu_frame_covers_content(content: UiRect, pad: Seq<i32>)
    requires
        menu_frame_fits(content, pad),
    ensures
        rect_within(content, spec_menu_frame(content, pad)),
{
}

/// With padding that is not negative, a menu's clip rect holds its layout
/// bounds, so nothing laid out inside is clipped away.
pub proof fn lemma_menu_scissor_holds_bounds(b: UiRect, pad: Seq<i32>)
    requires
        pad.len() == 4,
        pad_h(pad) >= 0,
        pad_v(pad) >= 0,
        fits_i32(b.min_x - pad_h(pad) - CONTEXT_MENU_OUTLINE),
        fits_i32(b.min_y - pad_v(pad) - CONTEXT_MENU_OUTLINE),
        fits_i32(b.max_x + pad_h(pad) + CONTEXT_MENU_OUTLINE),
        fits_i32(b.max_y + pad_v(pad) + CONTEXT_MENU_OUTLINE),
    ensures
        rect_within(b, spec_menu_scissor(b, pad)),
{
}

/// One frame of a drop-down selection whose menu is `open`, opened below
/// its button `rect`. Only an open menu reads its options: an option is
/// `picked` there and reported; the menu stays open unless an option was
/// picked or the pointer was pressed outside it. The menu opens at the
/// button's bottom-left corner.
pub fn select_step(open: bool, rect: UiRect, picked: Option<usize>, pressed_outside: bool) -> (r: (
    bool,
    IVec2,
    Option<usize>,
))
    ensures
        r.0 == (open && picked is None && !pressed_outside),
        r.1 == (IVec2 { x: rect.min_x, y: rect.max_y }),
        r.2 == (if open {
            picked
        } else {
            None
        }),
{
    let offset = IVec2::new(rect.min_x, rect.max_y);
    if !open {
        return (false, offset, None);
    }
    let mut still_open = true;
    if picked.is_some() {
        still_open = false;
    }
    if pressed_outside {
        still_open = false;
    }
    (still_open, offset, picked)
}

} // verus!
