use brengin::ui::ids::{update_ids, InteractionFlag, NextUiIdSet, NextUiIds, UiId, UiIds};
use brengin::ui::interaction::{
    button_interaction, clamp_coord, context_menu_opens, context_menu_stays_open,
    drag_source_interaction, drop_target_interaction, focus_interaction, request_add,
    request_remove, scroll_area_hover, scroll_handle_interaction, set_not_active,
    sync_context_menu, ButtonLook, Pointer,
};
use brengin::ui::layout::IVec2;

fn wid(n: u32) -> UiId {
    UiId { parent: 0, index: n, uid: 100 + n, depth: 1 }
}

fn ptr(contains: bool, up: bool, down: bool) -> Pointer {
    Pointer { contains, up, down }
}

/// Apply a frame's requests.
fn apply(ids: &mut UiIds, next: &mut NextUiIds) {
    update_ids(ids, next);
    assert!(next.0.is_empty());
}

#[test]
fn flag_bits_are_distinct() {
    let flags = [
        InteractionFlag::Hovered,
        InteractionFlag::Active,
        InteractionFlag::Dragged,
        InteractionFlag::ContextMenu,
        InteractionFlag::Scrolling,
    ];
    let bits: Vec<u8> = flags.iter().map(|f| f.bit()).collect();
    assert_eq!(bits, vec![1, 2, 4, 8, 16]);
}

#[test]
fn adding_a_flag_cancels_its_removal_and_keeps_the_others() {
    let mut s = NextUiIdSet::default();
    assert_eq!(s.id, UiId::sentinel());
    s.remove_flag(InteractionFlag::Active);
    s.add_flag(InteractionFlag::Hovered);
    assert!(s.has_removed_flag(InteractionFlag::Active));
    assert!(s.has_added_flag(InteractionFlag::Hovered));
    s.add_flag(InteractionFlag::Active);
    assert!(s.has_added_flag(InteractionFlag::Active));
    assert!(!s.has_removed_flag(InteractionFlag::Active));
    assert!(s.has_added_flag(InteractionFlag::Hovered));
    s.remove_flag(InteractionFlag::Hovered);
    assert!(!s.has_added_flag(InteractionFlag::Hovered));
    assert!(s.has_removed_flag(InteractionFlag::Hovered));
    assert!(s.has_added_flag(InteractionFlag::Active));
}

#[test]
fn push_reuses_the_last_entry_of_the_same_widget() {
    let mut next = NextUiIds(Vec::new());
    next.push(wid(1), 3).add_flag(InteractionFlag::Hovered);
    next.push(wid(1), 9).add_flag(InteractionFlag::Active);
    next.push(wid(2), 4);
    next.push(wid(1), 5);
    assert_eq!(next.0.len(), 3);
    assert_eq!(next.0[0].layer, 3);
    assert_eq!(next.0[0].added_flags, 3);
    assert_eq!(next.0[2].layer, 5);
}

#[test]
fn requests_are_applied_from_back_to_front() {
    let mut ids = UiIds::default();
    assert!(!ids.is_anything_active());
    assert_eq!(ids.dragged(), UiId::default());
    let mut next = NextUiIds(Vec::new());
    request_add(&mut next, wid(1), 20, InteractionFlag::Hovered);
    request_add(&mut next, wid(2), 10, InteractionFlag::Hovered);
    request_add(&mut next, wid(3), 20, InteractionFlag::Hovered);
    apply(&mut ids, &mut next);
    assert!(ids.is_hovered(wid(1)));
    assert!(ids.is_hovered(wid(2)));
    assert!(ids.is_hovered(wid(3)));
    // the frontmost layer wins; among equals, the later request
    assert!(ids.is_top_hovered(wid(3)));

    request_remove(&mut next, wid(3), 20, InteractionFlag::Hovered);
    apply(&mut ids, &mut next);
    assert!(!ids.is_hovered(wid(3)));
    // the topmost hovered widget is always hovered, or no widget
    assert!(ids.is_top_hovered(UiId::sentinel()));
    assert!(ids.is_hovered(wid(1)));
}

#[test]
fn releasing_a_drag_also_releases_the_widget() {
    let mut ids = UiIds::default();
    let mut next = NextUiIds(Vec::new());
    request_add(&mut next, wid(4), 1, InteractionFlag::Dragged);
    apply(&mut ids, &mut next);
    assert!(ids.is_active(wid(4)));
    assert_eq!(ids.dragged(), wid(4));
    assert!(ids.is_anything_dragged());
    request_remove(&mut next, wid(4), 1, InteractionFlag::Dragged);
    apply(&mut ids, &mut next);
    assert!(!ids.is_anything_dragged());
    assert!(!ids.is_anything_active());
}

#[test]
fn scrolling_and_context_menu_follow_requests() {
    let mut ids = UiIds::default();
    let mut next = NextUiIds(Vec::new());
    request_add(&mut next, wid(5), 1, InteractionFlag::Scrolling);
    request_add(&mut next, wid(6), 1, InteractionFlag::ContextMenu);
    apply(&mut ids, &mut next);
    assert!(ids.is_scrolling(wid(5)));
    assert!(ids.is_anything_scrolling());
    assert!(ids.has_context_menu(wid(6)));
    assert!(ids.is_context_menu_open());
    // only the scrolling widget itself can stop scrolling
    request_remove(&mut next, wid(6), 1, InteractionFlag::Scrolling);
    apply(&mut ids, &mut next);
    assert!(ids.is_scrolling(wid(5)));
    request_remove(&mut next, wid(6), 1, InteractionFlag::ContextMenu);
    apply(&mut ids, &mut next);
    assert!(!ids.is_context_menu_open());
}

#[test]
fn button_is_clicked_on_release_while_active_and_hovered() {
    let mut ids = UiIds::default();
    let mut next = NextUiIds(Vec::new());
    let b = wid(7);

    let out = button_interaction(&ids, &mut next, b, 1, ptr(true, false, false));
    assert!(!out.pressed);
    assert_eq!(out.look, ButtonLook::Default);
    apply(&mut ids, &mut next);
    assert!(ids.is_hovered(b));

    let out = button_interaction(&ids, &mut next, b, 1, ptr(true, false, true));
    assert_eq!(out.look, ButtonLook::Hovered);
    assert!(!out.pressed);
    apply(&mut ids, &mut next);
    assert!(ids.is_active(b));

    let out = button_interaction(&ids, &mut next, b, 1, ptr(true, false, true));
    assert_eq!(out.look, ButtonLook::Pressed);
    assert!(out.active);
    assert!(!out.pressed);
    apply(&mut ids, &mut next);

    let out = button_interaction(&ids, &mut next, b, 1, ptr(true, true, false));
    assert!(out.pressed);
    apply(&mut ids, &mut next);
    assert!(!ids.is_active(b));
}

#[test]
fn button_released_away_is_not_clicked() {
    let mut ids = UiIds::default();
    let mut next = NextUiIds(Vec::new());
    let b = wid(8);
    request_add(&mut next, b, 1, InteractionFlag::Active);
    apply(&mut ids, &mut next);
    // active but not hovered: releasing does not click, but lets go
    let out = button_interaction(&ids, &mut next, b, 1, ptr(false, true, false));
    assert!(!out.pressed);
    apply(&mut ids, &mut next);
    assert!(!ids.is_active(b));
}

#[test]
fn set_not_active_only_releases_the_active_widget() {
    let mut ids = UiIds::default();
    let mut next = NextUiIds(Vec::new());
    request_add(&mut next, wid(1), 1, InteractionFlag::Active);
    apply(&mut ids, &mut next);
    set_not_active(&ids, &mut next, wid(2), 1);
    assert!(next.0.is_empty());
    set_not_active(&ids, &mut next, wid(1), 1);
    assert_eq!(next.0.len(), 1);
    assert!(next.0[0].has_removed_flag(InteractionFlag::Active));
}

#[test]
fn focus_is_taken_on_press_and_lost_on_release_elsewhere() {
    let mut ids = UiIds::default();
    let mut next = NextUiIds(Vec::new());
    let f = wid(9);
    focus_interaction(&ids, &mut next, f, 1, ptr(true, false, false));
    apply(&mut ids, &mut next);
    assert!(ids.is_hovered(f));
    focus_interaction(&ids, &mut next, f, 1, ptr(true, false, true));
    apply(&mut ids, &mut next);
    assert!(ids.is_active(f));
    // released over it: stays focused
    focus_interaction(&ids, &mut next, f, 1, ptr(true, true, false));
    apply(&mut ids, &mut next);
    assert!(ids.is_active(f));
    // released away from it: lets go
    focus_interaction(&ids, &mut next, f, 1, ptr(false, true, false));
    apply(&mut ids, &mut next);
    assert!(!ids.is_active(f));
}

#[test]
fn scroll_handle_follows_the_pointer_while_active() {
    let mut ids = UiIds::default();
    let mut next = NextUiIds(Vec::new());
    let h = wid(10);
    assert!(!scroll_handle_interaction(&ids, &mut next, h, 1, ptr(true, false, false)));
    apply(&mut ids, &mut next);
    assert!(ids.is_top_hovered(h));
    assert!(!scroll_handle_interaction(&ids, &mut next, h, 1, ptr(true, false, true)));
    apply(&mut ids, &mut next);
    assert!(ids.is_active(h));
    assert!(scroll_handle_interaction(&ids, &mut next, h, 1, ptr(false, false, true)));
    apply(&mut ids, &mut next);
    assert!(!scroll_handle_interaction(&ids, &mut next, h, 1, ptr(false, true, false)));
    apply(&mut ids, &mut next);
    assert!(!ids.is_active(h));
}

#[test]
fn clamp_coord_keeps_the_handle_on_the_track() {
    assert_eq!(clamp_coord(5, 10, 20), 10);
    assert_eq!(clamp_coord(25, 10, 20), 20);
    assert_eq!(clamp_coord(15, 10, 20), 15);
    assert_eq!(clamp_coord(15, 15, 15), 15);
}

#[test]
fn scroll_area_scrolls_while_hovered() {
    let mut ids = UiIds::default();
    let mut next = NextUiIds(Vec::new());
    let a = wid(11);
    scroll_area_hover(&ids, &mut next, a, 1, true);
    apply(&mut ids, &mut next);
    assert!(ids.is_hovered(a));
    assert!(!ids.is_scrolling(a));
    scroll_area_hover(&ids, &mut next, a, 1, true);
    apply(&mut ids, &mut next);
    assert!(ids.is_scrolling(a));
    request_remove(&mut next, a, 1, InteractionFlag::Hovered);
    apply(&mut ids, &mut next);
    scroll_area_hover(&ids, &mut next, a, 1, false);
    apply(&mut ids, &mut next);
    assert!(!ids.is_scrolling(a));
}

#[test]
fn drop_target_receives_a_drop_only_while_something_is_dragged() {
    let mut ids = UiIds::default();
    let mut next = NextUiIds(Vec::new());
    let t = wid(12);
    let d = drop_target_interaction(&ids, &mut next, t, 1, ptr(true, true, false));
    assert!(!d.dropped && !d.hovered);
    assert!(next.0.is_empty());

    request_add(&mut next, wid(13), 1, InteractionFlag::Dragged);
    apply(&mut ids, &mut next);
    let d = drop_target_interaction(&ids, &mut next, t, 1, ptr(true, false, true));
    assert!(!d.hovered);
    assert_eq!(d.dragged, wid(13));
    apply(&mut ids, &mut next);
    let d = drop_target_interaction(&ids, &mut next, t, 1, ptr(true, true, false));
    assert!(d.hovered);
    assert!(d.dropped);
    assert_eq!(d.id, t);
}

#[test]
fn context_menu_opens_on_right_release_and_closes_on_click_away() {
    let mut ids = UiIds::default();
    let mut next = NextUiIds(Vec::new());
    let p = wid(14);
    assert!(context_menu_opens(&ids, true, true));
    assert!(!context_menu_opens(&ids, false, true));
    assert!(!context_menu_opens(&ids, true, false));
    sync_context_menu(&ids, &mut next, p, 1, true);
    apply(&mut ids, &mut next);
    assert!(ids.has_context_menu(p));
    assert!(!context_menu_opens(&ids, true, true));
    // already open and meant to stay open: no request
    sync_context_menu(&ids, &mut next, p, 1, true);
    assert!(next.0.is_empty());
    assert!(context_menu_stays_open(false, false));
    assert!(context_menu_stays_open(true, true));
    assert!(!context_menu_stays_open(true, false));
    sync_context_menu(&ids, &mut next, p, 1, false);
    apply(&mut ids, &mut next);
    assert!(!ids.is_context_menu_open());
}

#[test]
fn drag_source_moves_its_content_once_the_pointer_moved_enough() {
    let mut ids = UiIds::default();
    let mut next = NextUiIds(Vec::new());
    let s = wid(15);
    let zero = IVec2::new(0, 0);
    let out = drag_source_interaction(&ids, &mut next, s, 1, 10000, ptr(true, false, false), zero, zero, false);
    assert!(!out.is_being_dragged && !out.starts);
    apply(&mut ids, &mut next);
    let out = drag_source_interaction(&ids, &mut next, s, 1, 10000, ptr(true, false, true), zero, zero, false);
    assert!(out.starts && out.is_being_dragged);
    apply(&mut ids, &mut next);
    assert!(ids.is_active(s));

    // moved by (2, 1): length squared 5 is not enough
    let out = drag_source_interaction(&ids, &mut next, s, 1, 10000, ptr(true, false, true), IVec2::new(2, 1), IVec2::new(10, 10), false);
    assert!(out.is_being_dragged && !out.dragged);
    assert_eq!(out.pos, None);
    // moved by (2, 2): it is
    let out = drag_source_interaction(&ids, &mut next, s, 1, 10000, ptr(true, false, true), IVec2::new(2, 2), IVec2::new(10, 10), false);
    assert!(out.dragged);
    assert_eq!(out.pos, Some(IVec2::new(12, 12)));
    apply(&mut ids, &mut next);
    assert!(ids.is_anything_dragged());

    let out = drag_source_interaction(&ids, &mut next, s, 1, 10000, ptr(true, true, false), IVec2::new(2, 2), IVec2::new(10, 10), true);
    assert!(out.is_being_dragged && !out.dragged);
    apply(&mut ids, &mut next);
    assert!(!ids.is_anything_dragged());
    assert!(!ids.is_anything_active());
}
