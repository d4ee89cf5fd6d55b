//! How widgets react to the pointer: which interactions they request for the
//! next frame, given the interaction state of this frame.

use vstd::prelude::*;

use super::ids::{
    flag_bit, spec_push, spec_sentinel, InteractionFlag, NextUiIdSet, NextUiIds, UiId, UiIds,
};

verus! {

/// The requests after asking that `id` gain `flag` at `layer`.
pub open spec fn spec_request_add(
    sets: Seq<NextUiIdSet>,
    id: UiId,
    layer: u16,
    flag: InteractionFlag,
) -> Seq<NextUiIdSet> {
    let p = spec_push(sets, id, layer);
    let e = p.last();
    p.update(
        p.len() - 1,
        NextUiIdSet {
            added_flags: e.added_flags | flag_bit(flag),
            removed_flags: e.removed_flags & !flag_bit(flag),
            ..e
        },
    )
}

/// The requests after asking that `id` lose `flag` at `layer`.
pub open spec fn spec_request_remove(
    sets: Seq<NextUiIdSet>,
    id: UiId,
    layer: u16,
    flag: InteractionFlag,
) -> Seq<NextUiIdSet> {
    let p = spec_push(sets, id, layer);
    let e = p.last();
    p.update(
        p.len() - 1,
        NextUiIdSet {
            added_flags: e.added_flags & !flag_bit(flag),
            removed_flags: e.removed_flags | flag_bit(flag),
            ..e
        },
    )
}

/// Ask that `id` gain `flag` in the next frame.
pub fn request_add(next: &mut NextUiIds, id: UiId, layer: u16, flag: InteractionFlag)
    ensures
        final(next).0@ == spec_request_add(old(next).0@, id, layer, flag),
{
    let e = next.push(id, layer);
    e.add_flag(flag);
}

/// Ask that `id` lose `flag` in the next frame.
pub fn request_remove(next: &mut NextUiIds, id: UiId, layer: u16, flag: InteractionFlag)
    ensures
        final(next).0@ == spec_request_remove(old(next).0@, id, layer, flag),
{
    let e = next.push(id, layer);
    e.remove_flag(flag);
}

/// The requests after releasing `id` if it is the active widget.
pub open spec fn spec_set_not_active(
    sets: Seq<NextUiIdSet>,
    active: UiId,
    id: UiId,
    layer: u16,
) -> Seq<NextUiIdSet> {
    if active == id {
        spec_request_remove(sets, id, layer, InteractionFlag::Active)
    } else {
        sets
    }
}

/// Release `id` if it is the active widget.
pub fn set_not_active(ids: &UiIds, next: &mut NextUiIds, id: UiId, layer: u16)
    ensures
        final(next).0@ == spec_set_not_active(old(next).0@, ids@.active, id, layer),
{
    if ids.is_active(id) {
        request_remove(next, id, layer, InteractionFlag::Active);
    }
}

/// The requests after stopping `id` scrolling if it is the scrolling widget.
pub open spec fn spec_set_not_scrolling(
    sets: Seq<NextUiIdSet>,
    scrolling: UiId,
    id: UiId,
    layer: u16,
) -> Seq<NextUiIdSet> {
    if scrolling == id {
        spec_request_remove(sets, id, layer, InteractionFlag::Scrolling)
    } else {
        sets
    }
}

/// Stop `id` scrolling if it is the scrolling widget.
pub fn set_not_scrolling(ids: &UiIds, next: &mut NextUiIds, id: UiId, layer: u16)
    ensures
        final(next).0@ == spec_set_not_scrolling(old(next).0@, ids@.scrolling, id, layer),
{
    if ids.is_scrolling(id) {
        request_remove(next, id, layer, InteractionFlag::Scrolling);
    }
}

/// The state of the pointer this frame, as a widget sees it.
#[derive(Debug, Clone, Copy, PartialEq, Eq, Structural)]
pub struct Pointer {
    /// The pointer is over the widget's visible bounds.
    pub contains: bool,
    /// The left button was released this frame.
    pub up: bool,
    /// The left button is held down.
    pub down: bool,
}

/// How a button is drawn.
#[derive(Debug, Clone, Copy, PartialEq, Eq, Structural)]
pub enum ButtonLook {
    Default,
    Hovered,
    Pressed,
}

/// What a button does this frame.
#[derive(Debug, Clone, Copy, PartialEq, Eq, Structural)]
pub struct ButtonOutcome {
    /// The button was clicked: released while active and hovered.
    pub pressed: bool,
    /// The button was active at the start of the frame.
    pub active: bool,
    pub look: ButtonLook,
}

/// The requests a button makes, and what it reports.
pub open spec fn spec_button(
    st: super::ids::UiIdsState,
    sets: Seq<NextUiIdSet>,
    id: UiId,
    layer: u16,
    p: Pointer,
) -> (Seq<NextUiIdSet>, ButtonOutcome) {
    let active = st.active == id;
    let hovered = st.hovered.contains(id);
    let (s1, pressed, look) = if active {
        if p.up {
            (spec_set_not_active(sets, st.active, id, layer), hovered, ButtonLook::Pressed)
        } else {
            (sets, false, ButtonLook::Pressed)
        }
    } else if hovered {
        if !p.contains {
            (spec_request_remove(sets, id, layer, InteractionFlag::Hovered), false, ButtonLook::Hovered)
        } else if p.down {
            (spec_request_add(sets, id, layer, InteractionFlag::Active), false, ButtonLook::Hovered)
        } else {
            (sets, false, ButtonLook::Hovered)
        }
    } else {
        (sets, false, ButtonLook::Default)
    };
    let s2 = if p.contains {
        spec_request_add(s1, id, layer, InteractionFlag::Hovered)
    } else {
        s1
    };
    (s2, ButtonOutcome { pressed, active, look })
}

/// React to the pointer as a button: an active button is clicked when the
/// pointer is released over it, a hovered button becomes active when pressed,
/// and a button under the pointer asks to be hovered.
pub fn button_interaction(ids: &UiIds, next: &mut NextUiIds, id: UiId, layer: u16, p: Pointer) -> (r: ButtonOutcome)
    ensures
        (final(next).0@, r) == spec_button(ids@, old(next).0@, id, layer, p),
{
    let active = ids.is_active(id);
    let hovered = ids.is_hovered(id);
    let mut pressed = false;
    let look;
    if active {
        look = ButtonLook::Pressed;
        if p.up {
            if hovered {
                pressed = true;
            }
            set_not_active(ids, next, id, layer);
        }
    } else if hovered {
        look = ButtonLook::Hovered;
        if !p.contains {
            request_remove(next, id, layer, InteractionFlag::Hovered);
        } else if p.down {
            request_add(next, id, layer, InteractionFlag::Active);
        }
    } else {
        look = ButtonLook::Default;
    }
    if p.contains {
        request_add(next, id, layer, InteractionFlag::Hovered);
    }
    ButtonOutcome { pressed, active, look }
}

/// A click is reported only by a button that was active, on the frame the
/// pointer is released while the button is hovered.
pub proof fn lemma_button_press_needs_active_hover_release(
    st: super::ids::UiIdsState,
    sets: Seq<NextUiIdSet>,
    id: UiId,
    layer: u16,
    p: Pointer,
)
    ensures
        spec_button(st, sets, id, layer, p).1.pressed <==> (st.active == id && p.up
            && st.hovered.contains(id)),
{
}

/// The requests of a widget that takes focus on click, like a text field:
/// while hovered and not over, it drops the hover; pressed while hovered and
/// while nothing else is active, it becomes active; under the pointer it asks
/// to be hovered; active and released away from it, it lets go.
pub open spec fn spec_focus(
    st: super::ids::UiIdsState,
    sets: Seq<NextUiIdSet>,
    id: UiId,
    layer: u16,
    p: Pointer,
) -> Seq<NextUiIdSet> {
    let active = st.active == id;
    let hovered = st.hovered.contains(id);
    let s1 = if !active && hovered {
        if !p.contains {
            spec_request_remove(sets, id, layer, InteractionFlag::Hovered)
        } else if st.active == spec_sentinel() && p.down {
            spec_request_add(
                spec_request_remove(sets, id, layer, InteractionFlag::Hovered),
                id,
                layer,
                InteractionFlag::Active,
            )
        } else {
            sets
        }
    } else {
        sets
    };
    let s2 = if p.contains {
        spec_request_add(s1, id, layer, InteractionFlag::Hovered)
    } else {
        s1
    };
    if active && p.up && !p.contains {
        spec_set_not_active(s2, st.active, id, layer)
    } else {
        s2
    }
}

/// React to the pointer as a widget that takes focus on click.
pub fn focus_interaction(ids: &UiIds, next: &mut NextUiIds, id: UiId, layer: u16, p: Pointer)
    ensures
        final(next).0@ == spec_focus(ids@, old(next).0@, id, layer, p),
{
    let active = ids.is_active(id);
    if !active && ids.is_hovered(id) {
        if !p.contains {
            request_remove(next, id, layer, InteractionFlag::Hovered);
        } else if !ids.is_anything_active() && p.down {
            request_remove(next, id, layer, InteractionFlag::Hovered);
            request_add(next, id, layer, InteractionFlag::Active);
        }
    }
    if p.contains {
        request_add(next, id, layer, InteractionFlag::Hovered);
    }
    if active && p.up && !p.contains {
        set_not_active(ids, next, id, layer);
    }
}

/// The requests of a scroll bar's handle. It is dragged while active and
/// let go on release; it becomes active when pressed while topmost under the
/// pointer; it asks to be hovered when under the pointer and nothing is active.
/// The flag reports whether it follows the pointer this frame.
pub open spec fn spec_scroll_handle(
    st: super::ids::UiIdsState,
    sets: Seq<NextUiIdSet>,
    id: UiId,
    layer: u16,
    p: Pointer,
) -> (Seq<NextUiIdSet>, bool) {
    let (s1, follows) = if st.active == id {
        if p.up {
            (spec_set_not_active(sets, st.active, id, layer), false)
        } else {
            (sets, true)
        }
    } else if st.top_hovered == id {
        if !p.contains {
            (spec_request_remove(sets, id, layer, InteractionFlag::Hovered), false)
        } else if p.down {
            (spec_request_add(sets, id, layer, InteractionFlag::Active), false)
        } else {
            (sets, false)
        }
    } else {
        (sets, false)
    };
    let s2 = if st.active == spec_sentinel() && p.contains {
        spec_request_add(s1, id, layer, InteractionFlag::Hovered)
    } else {
        s1
    };
    (s2, follows)
}

/// React to the pointer as the handle of a scroll bar.
pub fn scroll_handle_interaction(ids: &UiIds, next: &mut NextUiIds, id: UiId, layer: u16, p: Pointer) -> (follows: bool)
    ensures
        (final(next).0@, follows) == spec_scroll_handle(ids@, old(next).0@, id, layer, p),
{
    let mut follows = false;
    if ids.is_active(id) {
        if p.up {
            set_not_active(ids, next, id, layer);
        } else {
            follows = true;
        }
    } else if ids.is_top_hovered(id) {
        if !p.contains {
            request_remove(next, id, layer, InteractionFlag::Hovered);
        } else if p.down {
            request_add(next, id, layer, InteractionFlag::Active);
        }
    }
    if !ids.is_anything_active() && p.contains {
        request_add(next, id, layer, InteractionFlag::Hovered);
    }
    follows
}

/// Where a scroll bar's handle goes when it follows the pointer: the
/// pointer's coordinate, kept within `[lo, hi]`.
pub fn clamp_coord(coord: i32, lo: i32, hi: i32) -> (r: i32)
    requires
        lo <= hi,
    ensures
        r == if coord < lo {
            lo
        } else if coord > hi {
            hi
        } else {
            coord
        },
{
    if coord < lo {
        lo
    } else if coord > hi {
        hi
    } else {
        coord
    }
}

/// The requests of a scroll area: under the pointer it asks to be hovered,
/// and it scrolls while hovered.
pub open spec fn spec_scroll_area_hover(
    st: super::ids::UiIdsState,
    sets: Seq<NextUiIdSet>,
    id: UiId,
    layer: u16,
    contains: bool,
) -> Seq<NextUiIdSet> {
    let s1 = if contains {
        spec_request_add(sets, id, layer, InteractionFlag::Hovered)
    } else {
        sets
    };
    if st.hovered.contains(id) {
        spec_request_add(s1, id, layer, InteractionFlag::Scrolling)
    } else {
        spec_set_not_scrolling(s1, st.scrolling, id, layer)
    }
}

/// React to the pointer as a scroll area.
pub fn scroll_area_hover(ids: &UiIds, next: &mut NextUiIds, id: UiId, layer: u16, contains: bool)
    ensures
        final(next).0@ == spec_scroll_area_hover(ids@, old(next).0@, id, layer, contains),
{
    if contains {
        request_add(next, id, layer, InteractionFlag::Hovered);
    }
    if ids.is_hovered(id) {
        request_add(next, id, layer, InteractionFlag::Scrolling);
    } else {
        set_not_scrolling(ids, next, id, layer);
    }
}

/// What a drop target sees this frame.
#[derive(Debug, Clone, Copy, PartialEq, Eq, Structural)]
pub struct DropState {
    pub id: UiId,
    pub dragged: UiId,
    pub dropped: bool,
    pub hovered: bool,
}

/// The requests of a drop target and what it sees: while something is
/// dragged, it is hovered when topmost under the pointer and receives the
/// drop when the pointer is released over it.
pub open spec fn spec_drop_target(
    st: super::ids::UiIdsState,
    sets: Seq<NextUiIdSet>,
    id: UiId,
    layer: u16,
    p: Pointer,
) -> (Seq<NextUiIdSet>, DropState) {
    if st.dragged != spec_sentinel() {
        let hovered = st.top_hovered == id;
        let dropped = hovered && p.up;
        let s1 = if hovered && !p.contains {
            spec_request_remove(sets, id, layer, InteractionFlag::Hovered)
        } else {
            sets
        };
        let s2 = if p.contains {
            spec_request_add(s1, id, layer, InteractionFlag::Hovered)
        } else {
            s1
        };
        (s2, DropState { id, dragged: st.dragged, dropped, hovered })
    } else {
        (sets, DropState { id, dragged: st.dragged, dropped: false, hovered: false })
    }
}

/// React to the pointer as a drop target.
pub fn drop_target_interaction(ids: &UiIds, next: &mut NextUiIds, id: UiId, layer: u16, p: Pointer) -> (r: DropState)
    ensures
        (final(next).0@, r) == spec_drop_target(ids@, old(next).0@, id, layer, p),
{
    let mut state = DropState { id, dragged: ids.dragged(), dropped: false, hovered: false };
    if ids.is_anything_dragged() {
        state.hovered = ids.is_top_hovered(id);
        if state.hovered {
            if p.up {
                state.dropped = true;
            }
            if !p.contains {
                request_remove(next, id, layer, InteractionFlag::Hovered);
            }
        }
        if p.contains {
            request_add(next, id, layer, InteractionFlag::Hovered);
        }
    }
    state
}

/// The requests that make the interaction state match whether a context menu
/// of `parent` should be open.
pub open spec fn spec_sync_context_menu(
    st: super::ids::UiIdsState,
    sets: Seq<NextUiIdSet>,
    parent: UiId,
    layer: u16,
    open: bool,
) -> Seq<NextUiIdSet> {
    let currently_open = st.context_menu == parent;
    if currently_open && !open {
        spec_request_remove(sets, parent, layer, InteractionFlag::ContextMenu)
    } else if !currently_open && open {
        spec_request_add(sets, parent, layer, InteractionFlag::ContextMenu)
    } else {
        sets
    }
}

/// Ask to open or close the context menu of `parent` when that differs from
/// the current state.
pub fn sync_context_menu(ids: &UiIds, next: &mut NextUiIds, parent: UiId, layer: u16, open: bool)
    ensures
        final(next).0@ == spec_sync_context_menu(ids@, old(next).0@, parent, layer, open),
{
    let currently_open = ids.has_context_menu(parent);
    if currently_open {
        if !open {
            request_remove(next, parent, layer, InteractionFlag::ContextMenu);
        }
    } else if open {
        request_add(next, parent, layer, InteractionFlag::ContextMenu);
    }
}

/// Whether a closed context menu opens: the right button was released over
/// its widget while no context menu is open.
pub fn context_menu_opens(ids: &UiIds, contains: bool, right_released: bool) -> (r: bool)
    ensures
        r == (contains && right_released && ids@.context_menu == spec_sentinel()),
{
    contains && right_released && !ids.is_context_menu_open()
}

/// Whether an open context menu stays open: it closes when a button is held
/// while the pointer is away from it.
pub fn context_menu_stays_open(any_button_pressed: bool, contains: bool) -> (r: bool)
    ensures
        r == !(any_button_pressed && !contains),
{
    !(any_button_pressed && !contains)
}

/// Squared length of an offset, which must not overflow.
pub open spec fn length_squared(v: super::layout::IVec2) -> int {
    v.x * v.x + v.y * v.y
}

/// What a drag source does this frame.
#[derive(Debug, Clone, Copy, PartialEq, Eq, Structural)]
pub struct DragOutcome {
    /// The source is being dragged (also on the frame it is released).
    pub is_being_dragged: bool,
    /// The pointer moved far enough for the drag to count.
    pub dragged: bool,
    /// Where the dragged content is drawn, when it moves.
    pub pos: Option<super::layout::IVec2>,
    /// The drag starts this frame; the caller records where the pointer is.
    pub starts: bool,
}

/// The requests of a drag source and what it does. An active source is
/// dragged: released, it lets go and drops the drag; otherwise, once the
/// pointer has moved more than a few pixels from where the drag started, its
/// content follows the pointer. An inactive source under the pointer, while
/// nothing is active, asks to be hovered and starts a drag when pressed while
/// topmost.
pub open spec fn spec_drag_source(
    st: super::ids::UiIdsState,
    sets: Seq<NextUiIdSet>,
    id: UiId,
    layer: u16,
    drag_layer: u16,
    p: Pointer,
    offset: super::layout::IVec2,
    anchor: super::layout::IVec2,
    was_dragged: bool,
) -> (Seq<NextUiIdSet>, DragOutcome) {
    if st.active == id {
        if p.up {
            let s1 = spec_set_not_active(sets, st.active, id, layer);
            (
                spec_request_remove(s1, id, drag_layer, InteractionFlag::Dragged),
                DragOutcome { is_being_dragged: true, dragged: false, pos: None, starts: false },
            )
        } else {
            let dragged = was_dragged || length_squared(offset) > 5;
            if dragged {
                (
                    spec_request_add(sets, id, drag_layer, InteractionFlag::Dragged),
                    DragOutcome {
                        is_being_dragged: true,
                        dragged: true,
                        pos: Some(
                            super::layout::IVec2 {
                                x: (anchor.x + offset.x) as i32,
                                y: (anchor.y + offset.y) as i32,
                            },
                        ),
                        starts: false,
                    },
                )
            } else {
                (
                    sets,
                    DragOutcome { is_being_dragged: true, dragged: false, pos: None, starts: false },
                )
            }
        }
    } else if st.active == spec_sentinel() && p.contains {
        let s1 = spec_request_add(sets, id, layer, InteractionFlag::Hovered);
        if st.top_hovered == id && p.down {
            (
                spec_request_add(s1, id, layer, InteractionFlag::Active),
                DragOutcome { is_being_dragged: true, dragged: false, pos: None, starts: true },
            )
        } else {
            (
                s1,
                DragOutcome { is_being_dragged: false, dragged: was_dragged, pos: None, starts: false },
            )
        }
    } else {
        (sets, DragOutcome { is_being_dragged: false, dragged: was_dragged, pos: None, starts: false })
    }
}

/// React to the pointer as a drag source. `offset` is how far the pointer
/// moved since the drag started and `anchor` where the content was when it did.
pub fn drag_source_interaction(
    ids: &UiIds,
    next: &mut NextUiIds,
    id: UiId,
    layer: u16,
    drag_layer: u16,
    p: Pointer,
    offset: super::layout::IVec2,
    anchor: super::layout::IVec2,
    was_dragged: bool,
) -> (r: DragOutcome)
    requires
        ids@.active == id && !p.up ==> super::rect::fits_i32(length_squared(offset))
            && super::rect::fits_i32(offset.x * offset.x)
            && super::rect::fits_i32(offset.y * offset.y),
        ids@.active == id && !p.up ==> super::rect::fits_i32(anchor.x + offset.x)
            && super::rect::fits_i32(anchor.y + offset.y),
    ensures
        (final(next).0@, r) == spec_drag_source(
            ids@,
            old(next).0@,
            id,
            layer,
            drag_layer,
            p,
            offset,
            anchor,
            was_dragged,
        ),
{
    if ids.is_active(id) {
        if p.up {
            set_not_active(ids, next, id, layer);
            request_remove(next, id, drag_layer, InteractionFlag::Dragged);
            DragOutcome { is_being_dragged: true, dragged: false, pos: None, starts: false }
        } else {
            let len2 = offset.x * offset.x + offset.y * offset.y;
            let dragged = was_dragged || len2 > 5;
            if dragged {
                request_add(next, id, drag_layer, InteractionFlag::Dragged);
                DragOutcome {
                    is_being_dragged: true,
                    dragged: true,
                    pos: Some(super::layout::IVec2::new(anchor.x + offset.x, anchor.y + offset.y)),
                    starts: false,
                }
            } else {
                DragOutcome { is_being_dragged: true, dragged: false, pos: None, starts: false }
            }
        }
    } else if !ids.is_anything_active() && p.contains {
        request_add(next, id, layer, InteractionFlag::Hovered);
        if ids.is_top_hovered(id) && p.down {
            request_add(next, id, layer, InteractionFlag::Active);
            DragOutcome { is_being_dragged: true, dragged: false, pos: None, starts: true }
        } else {
            DragOutcome { is_being_dragged: false, dragged: was_dragged, pos: None, starts: false }
        }
    } else {
        DragOutcome { is_being_dragged: false, dragged: was_dragged, pos: None, starts: false }
    }
}

} // verus!
