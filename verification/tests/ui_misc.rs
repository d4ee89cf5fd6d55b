use brengin::ui::container::UiFrame;
use brengin::ui::context_menu::{menu_frame, menu_layout, select_step, CONTEXT_MENU_OUTLINE};
use brengin::ui::ids::{flag_words, InteractionFlag, NextUiIds, UiId, UiIds};
use brengin::ui::outline::{outline_content_bounds, outline_rect};
use brengin::ui::interaction::{request_add, Pointer};
use brengin::ui::layout::{HorizontalAlignment, IVec2, LayoutDirection, VerticalAlignment};
use brengin::ui::rect::UiRect;
use brengin::ui::scroll::{
    horizontal_bar_rects, saturating_sub_i32, scroll_content_bounds, scroll_extent,
    vertical_bar_rects, BOUNDS_LIMIT,
};
use brengin::ui::text_layout::label_lines;
use brengin::ui::text_input::{EditKey, TextInputState, CARET_PERIOD_NANOS, CURSOR_DEBOUNCE_NANOS};
use brengin::color::Color;
use brengin::ui::theme::{apply_override, Theme, ThemeEntry, ThemeOverride};
use brengin::ui::tree::{advance_bounds, finish_column, grid_columns, shift_columns_after, UiTree};
use brengin::ui::window::{panel_bounds, panel_root_hash, title_drag_interaction, window_frame, window_size};
use brengin::ui::{fnv_1a, text_cache_keep, SHAPING_GC_BUDGET};

fn reference_fnv(bytes: &[u8]) -> u32 {
    let mut h: u32 = 0x811c9dc5;
    for b in bytes {
        h ^= *b as u32;
        h = h.wrapping_mul(0x1000193);
    }
    h
}

fn ne_words(words: &[u32]) -> Vec<u8> {
    words.iter().flat_map(|w| w.to_ne_bytes()).collect()
}

#[test]
fn fnv_1a_matches_the_published_values() {
    assert_eq!(fnv_1a(b""), 0x811c9dc5);
    assert_eq!(fnv_1a(b"a"), 0xe40c292c);
    assert_eq!(fnv_1a(b"foobar"), 0xbf9cf968);
}

#[test]
fn text_cache_drops_stale_entries_within_the_budget() {
    let mut budget = SHAPING_GC_BUDGET;
    assert!(text_cache_keep(&mut budget, Some(100), 220));
    assert_eq!(budget, 100);
    assert!(!text_cache_keep(&mut budget, Some(100), 221));
    assert_eq!(budget, 99);
    assert!(!text_cache_keep(&mut budget, None, 5));
    assert_eq!(budget, 98);
    // a result used "after" the current tick is kept
    assert!(text_cache_keep(&mut budget, Some(500), 5));
    let mut spent = 0u32;
    assert!(text_cache_keep(&mut spent, None, 5));
    assert_eq!(spent, 0);
}

#[test]
fn widget_ids_chain_within_a_level() {
    let mut tree = UiTree::new();
    let a = tree.begin_widget();
    assert_eq!(a.index, 0);
    assert_eq!(a.depth, 1);
    assert_eq!(a.parent, u32::MAX);
    assert_eq!(a.uid, reference_fnv(&ne_words(&[0, 0])));
    assert!(tree.id_stack.is_empty());

    tree.push_child();
    let b = tree.begin_widget();
    assert_eq!(b.index, 1);
    assert_eq!(b.parent, u32::MAX);
    assert_eq!(tree.id_stack, vec![1]);
    assert_eq!(tree.current_id(), b);
    let c = tree.begin_widget();
    assert_eq!(c.parent, 1);
    assert_eq!(c.depth, b.depth + 1);
    assert_eq!(c.uid, reference_fnv(&ne_words(&[b.uid, 2])));
    tree.pop_child();
    assert!(tree.id_stack.is_empty());
    assert_eq!(tree.current_id(), UiId::sentinel());
    tree.pop_child();
    assert_eq!(tree.widget_ids.len(), 3);

    tree.root_hash = 77;
    tree.clear();
    assert!(tree.widget_ids.is_empty());
    assert_eq!(tree.root_hash, 0);
}

#[test]
fn root_hash_seeds_the_first_widget() {
    let mut tree = UiTree::new();
    tree.root_hash = 1234;
    let a = tree.begin_widget();
    assert_eq!(a.uid, reference_fnv(&ne_words(&[1234, 0])));
}

#[test]
fn layout_cursor_advances_past_placed_rects() {
    let bounds = UiRect { min_x: 0, min_y: 0, max_x: 100, max_y: 100 };
    let placed = UiRect { min_x: 10, min_y: 10, max_x: 30, max_y: 20 };
    let pad = [1, 2, 3, 4];
    let r = advance_bounds(bounds, LayoutDirection::TopDown(HorizontalAlignment::Left), placed, pad);
    assert_eq!(r, UiRect { min_y: 24, ..bounds });
    let r = advance_bounds(bounds, LayoutDirection::LeftRight(VerticalAlignment::Top), placed, pad);
    assert_eq!(r, UiRect { min_x: 32, ..bounds });
    let r = advance_bounds(bounds, LayoutDirection::BottomUp(HorizontalAlignment::Left), placed, pad);
    assert_eq!(r, UiRect { max_y: 7, ..bounds });
    let r = advance_bounds(bounds, LayoutDirection::RightLeft(VerticalAlignment::Top), placed, pad);
    assert_eq!(r, UiRect { max_x: 9, ..bounds });
    assert_eq!(advance_bounds(bounds, LayoutDirection::Center, placed, pad), bounds);
}

#[test]
fn grid_splits_the_width_into_columns() {
    let bounds = UiRect { min_x: 0, min_y: 0, max_x: 100, max_y: 10 };
    let mut dims = grid_columns(bounds, 3);
    assert_eq!(dims, vec![[0, 34], [34, 68], [68, 102]]);
    shift_columns_after(&mut dims, 0, 5);
    assert_eq!(dims, vec![[0, 34], [39, 73], [73, 107]]);
    shift_columns_after(&mut dims, 7, 5);
    assert_eq!(dims, vec![[0, 34], [39, 73], [73, 107]]);
}

#[test]
fn window_frame_and_size() {
    let (content, title) = window_frame(IVec2::new(10, 20), IVec2::new(200, 200), 16, 4);
    assert_eq!(content, UiRect { min_x: 10, min_y: 36, max_x: 210, max_y: 220 });
    assert_eq!(title, UiRect { min_x: 10, min_y: 20, max_x: 218, max_y: 36 });
    assert_eq!(window_size(100, 50, 4, 16), IVec2::new(108, 74));
    assert_eq!(window_size(10, -10, 1, 16), IVec2::new(12, 21));
}

#[test]
fn title_bar_drags_its_window() {
    let mut ids = UiIds::default();
    let mut next = NextUiIds(Vec::new());
    let t = UiId { parent: 0, index: 1, uid: 9, depth: 1 };
    let d = title_drag_interaction(&ids, &mut next, t, 100, Pointer { contains: true, up: false, down: true });
    assert!(d.starts && !d.follows);
    brengin::ui::ids::update_ids(&mut ids, &mut next);
    assert!(ids.is_active(t));
    let d = title_drag_interaction(&ids, &mut next, t, 100, Pointer { contains: false, up: false, down: true });
    assert!(d.follows && !d.starts);
    let d = title_drag_interaction(&ids, &mut next, t, 100, Pointer { contains: false, up: true, down: false });
    assert!(d.follows);
    brengin::ui::ids::update_ids(&mut ids, &mut next);
    assert!(!ids.is_active(t));

    // another widget is active: no drag starts
    request_add(&mut next, UiId { parent: 0, index: 2, uid: 10, depth: 1 }, 1, InteractionFlag::Active);
    brengin::ui::ids::update_ids(&mut ids, &mut next);
    let d = title_drag_interaction(&ids, &mut next, t, 100, Pointer { contains: true, up: false, down: true });
    assert!(!d.starts && !d.follows);
    assert!(next.0.is_empty());
}

#[test]
fn panels_stick_to_their_edges() {
    let screen = UiRect { min_x: 0, min_y: 0, max_x: 800, max_y: 600 };
    let left = panel_bounds(screen, 200, 600, HorizontalAlignment::Left, VerticalAlignment::Center);
    assert_eq!(left, UiRect { min_x: 0, min_y: 0, max_x: 200, max_y: 600 });
    let right = panel_bounds(screen, 200, 600, HorizontalAlignment::Right, VerticalAlignment::Center);
    assert_eq!(right, UiRect { min_x: 600, min_y: 0, max_x: 800, max_y: 600 });
    let bottom = panel_bounds(screen, 800, 100, HorizontalAlignment::Center, VerticalAlignment::Bottom);
    assert_eq!(bottom, UiRect { min_x: 0, min_y: 500, max_x: 800, max_y: 600 });
    let top = panel_bounds(screen, 800, 100, HorizontalAlignment::Center, VerticalAlignment::Top);
    assert_eq!(top, UiRect { min_x: 0, min_y: 0, max_x: 800, max_y: 100 });
}

#[test]
fn panel_root_hash_hashes_corner_and_size() {
    let b = UiRect { min_x: 5, min_y: 7, max_x: 0, max_y: 0 };
    let expected = reference_fnv(&ne_words(&[0, 5, 7, 20, 30]));
    assert_eq!(panel_root_hash(b, 20, 30), expected);
    assert_ne!(panel_root_hash(b, 20, 31), expected);
}

#[test]
fn scroll_content_opens_towards_the_layout() {
    let b = UiRect { min_x: 0, min_y: 0, max_x: 100, max_y: 50 };
    let r = scroll_content_bounds(b, LayoutDirection::TopDown(HorizontalAlignment::Left), false, true);
    assert_eq!(r, UiRect { max_y: BOUNDS_LIMIT, ..b });
    let r = scroll_content_bounds(b, LayoutDirection::TopDown(HorizontalAlignment::Left), true, false);
    assert_eq!(r, b);
    let r = scroll_content_bounds(b, LayoutDirection::Center, true, true);
    assert_eq!(r, UiRect { min_x: -BOUNDS_LIMIT, max_x: BOUNDS_LIMIT, min_y: -BOUNDS_LIMIT, max_y: BOUNDS_LIMIT });
    let r = scroll_content_bounds(b, LayoutDirection::RightLeft(VerticalAlignment::Top), true, true);
    assert_eq!(r, UiRect { min_x: -BOUNDS_LIMIT, ..b });
    assert_eq!(BOUNDS_LIMIT, i32::MAX / 4);
}

#[test]
fn scroll_extent_is_what_does_not_fit() {
    assert_eq!(scroll_extent(500, 200, 20, 10), 330);
    assert_eq!(scroll_extent(100, 200, 20, 10), -70);
    assert_eq!(saturating_sub_i32(i32::MIN + 5, 100), i32::MIN);
    assert_eq!(saturating_sub_i32(i32::MAX, -1), i32::MAX);
    assert_eq!(saturating_sub_i32(3, 5), -2);
}

#[test]
fn scroll_bars_sit_at_the_edges() {
    let s = UiRect { min_x: 0, min_y: 0, max_x: 100, max_y: 50 };
    let (track, handle) = vertical_bar_rects(s, 10, 20);
    assert_eq!(track, UiRect { min_x: 90, min_y: 0, max_x: 100, max_y: 50 });
    assert_eq!(handle, UiRect { min_x: 90, min_y: 20, max_x: 100, max_y: 30 });
    let (track, handle) = horizontal_bar_rects(s, 10, 40);
    assert_eq!(track, UiRect { min_x: 0, min_y: 40, max_x: 100, max_y: 50 });
    assert_eq!(handle, UiRect { min_x: 40, min_y: 40, max_x: 50, max_y: 50 });
}

#[test]
fn theme_override_applied_twice_restores_everything() {
    let mut slot = Some(2);
    let mut value = 1;
    apply_override(&mut slot, &mut value);
    assert_eq!((slot, value), (Some(1), 2));
    apply_override(&mut slot, &mut value);
    assert_eq!((slot, value), (Some(2), 1));
    let mut empty: Option<i32> = None;
    apply_override(&mut empty, &mut value);
    assert_eq!((empty, value), (None, 1));
}

#[test]
fn text_input_edits_are_debounced() {
    let mut s = TextInputState::with_cursor(3);
    assert_eq!(s.apply_key(EditKey::Backspace, 5, false), Some(2));
    assert_eq!(s.cursor, 2);
    assert!(!s.can_move);
    // until the debounce timer fires, keys do nothing
    assert_eq!(s.apply_key(EditKey::Backspace, 4, false), None);
    assert_eq!(s.cursor, 2);
    s.tick(CURSOR_DEBOUNCE_NANOS - 1);
    assert!(!s.can_move);
    s.tick(1);
    assert!(s.can_move);
    assert!(!s.show_caret);
    assert_eq!(s.apply_key(EditKey::Delete, 4, false), Some(2));
    assert_eq!(s.cursor, 2);
}

#[test]
fn text_input_cursor_keys() {
    let mut s = TextInputState::with_cursor(4);
    assert_eq!(s.apply_key(EditKey::ArrowRight, 5, false), None);
    assert_eq!(s.cursor, 5);
    s.can_move = true;
    s.apply_key(EditKey::ArrowRight, 5, false);
    assert_eq!(s.cursor, 5);
    s.can_move = true;
    s.apply_key(EditKey::ArrowLeft, 5, true);
    assert_eq!(s.cursor, 0);
    s.can_move = true;
    s.apply_key(EditKey::ArrowLeft, 5, false);
    assert_eq!(s.cursor, 0);
    s.can_move = true;
    s.apply_key(EditKey::End, 5, false);
    assert_eq!(s.cursor, 5);
    s.can_move = true;
    assert_eq!(s.apply_key(EditKey::Delete, 5, false), None);
    s.can_move = true;
    s.apply_key(EditKey::Home, 5, false);
    assert_eq!(s.cursor, 0);
    s.can_move = true;
    assert_eq!(s.apply_key(EditKey::Backspace, 5, false), None);
    s.can_move = true;
    s.apply_key(EditKey::ArrowRight, 5, true);
    assert_eq!(s.cursor, 5);
    s.insert_text(3);
    assert_eq!(s.cursor, 8);
    s.clamp_cursor(6);
    assert_eq!(s.cursor, 6);
}

#[test]
fn caret_blinks_with_its_timer() {
    let mut s = TextInputState::default();
    assert_eq!(s.cursor, 0);
    assert!(s.can_move);
    s.tick(CARET_PERIOD_NANOS);
    assert!(s.show_caret);
    s.tick(CARET_PERIOD_NANOS);
    assert!(!s.show_caret);
}

#[test]
fn theme_override_apply_returns_its_own_undo() {
    let mut theme: Theme<(), u8> = Theme::default();
    assert_eq!(theme.font_size, 12);
    assert_eq!(theme.window_title_height, 24);
    assert!(matches!(theme.background, ThemeEntry::Color(Color(0x04a5e5ff))));
    assert_eq!(theme.primary_color, Color(0xcdd6f4ff));
    assert_eq!(theme.font, 0);

    let mut o: ThemeOverride<(), u8> = ThemeOverride::default();
    o.font_size = Some(20);
    o.button_hovered = Some(None);
    o.font = Some(3);
    let undo = o.apply(&mut theme);
    assert_eq!(theme.font_size, 20);
    assert!(theme.button_hovered.is_none());
    assert_eq!(theme.font, 3);
    assert_eq!(theme.text_padding, 5);
    assert_eq!(undo.font_size, Some(12));
    assert!(undo.text_padding.is_none());

    let redo = undo.apply(&mut theme);
    assert_eq!(theme.font_size, 12);
    assert!(matches!(theme.button_hovered, Some(ThemeEntry::Color(Color(0x45475aff)))));
    assert_eq!(theme.font, 0);
    assert_eq!(redo.font_size, Some(20));
    assert_eq!(redo.font, Some(3));

    // an override that sets nothing changes nothing
    let none = ThemeOverride::<(), u8>::default().apply(&mut theme);
    assert!(none.font_size.is_none() && none.font.is_none());
    assert_eq!(theme.font_size, 12);
    assert_eq!(theme.font, 0);
}

#[test]
fn context_menu_opens_at_its_offset_and_reaches_the_screen_edges() {
    let anchor = UiRect { min_x: 10, min_y: 10, max_x: 30, max_y: 20 };
    let screen = UiRect { min_x: 0, min_y: 0, max_x: 800, max_y: 600 };
    let (bounds, scissor) = menu_layout(anchor, IVec2::new(100, 50), screen, [1, 2, 3, 4]);
    assert_eq!(bounds, UiRect { min_x: 90, min_y: 45, max_x: 795, max_y: 591 });
    assert_eq!(scissor, UiRect { min_x: 85, min_y: 36, max_x: 800, max_y: 600 });
}

#[test]
fn context_menu_frame_surrounds_its_content() {
    let content = UiRect { min_x: 10, min_y: 20, max_x: 50, max_y: 40 };
    let (frame, background) = menu_frame(content, [1, 2, 3, 4]);
    assert_eq!(frame, UiRect { min_x: 7, min_y: 15, max_x: 54, max_y: 46 });
    assert_eq!(background, (9, 17, 43, 27));
    assert_eq!(CONTEXT_MENU_OUTLINE, 2);
}

#[test]
fn outlined_content_is_inset_and_the_outline_grows_around_it() {
    let bounds = UiRect { min_x: 0, min_y: 0, max_x: 100, max_y: 100 };
    assert_eq!(
        outline_content_bounds(bounds, [1, 2, 3, 4], 2),
        UiRect { min_x: 3, min_y: 5, max_x: 100, max_y: 100 }
    );
    let content = UiRect { min_x: 10, min_y: 10, max_x: 50, max_y: 50 };
    assert_eq!(
        outline_rect(content, [1, 2, 3, 4], 2),
        UiRect { min_x: 7, min_y: 5, max_x: 54, max_y: 56 }
    );
}

#[test]
fn flag_words_name_the_set_flags_in_order() {
    assert!(flag_words(0).is_empty());
    assert_eq!(
        flag_words(1 | 2),
        vec![(InteractionFlag::Hovered, false), (InteractionFlag::Active, true)]
    );
    // a context menu does not count as an earlier word
    assert_eq!(
        flag_words(8 | 16),
        vec![(InteractionFlag::ContextMenu, false), (InteractionFlag::Scrolling, false)]
    );
    assert_eq!(
        flag_words(1 | 8 | 16),
        vec![
            (InteractionFlag::Hovered, false),
            (InteractionFlag::ContextMenu, true),
            (InteractionFlag::Scrolling, true)
        ]
    );
    assert_eq!(flag_words(4), vec![(InteractionFlag::Dragged, false)]);
}

#[test]
fn resize_sets_the_width_about_the_middle() {
    let mut r = UiRect { min_x: 0, min_y: 0, max_x: 100, max_y: 10 };
    r.resize_w(41);
    assert_eq!(r.width(), 41);
    assert_eq!(r, UiRect { min_x: 29, min_y: 0, max_x: 70, max_y: 10 });
    r.resize_h(4);
    assert_eq!(r.height(), 4);
    assert_eq!((r.min_y, r.max_y), (3, 7));
    r.move_to_x(10);
    assert_eq!(r.center_x(), 10);
    assert_eq!(r.width(), 41);
    r.move_to_y(-5);
    assert_eq!(r.center_y(), -5);
}

#[test]
fn a_wide_column_pushes_the_later_ones_right() {
    let mut dims = vec![[0, 10], [10, 20], [20, 30]];
    // fits: nothing moves
    finish_column(&mut dims, 0, 3, 10);
    assert_eq!(dims, vec![[0, 10], [10, 20], [20, 30]]);
    // four pixels too wide
    finish_column(&mut dims, 0, 3, 14);
    assert_eq!(dims, vec![[0, 10], [14, 24], [24, 34]]);
    // the last column has nothing after it
    finish_column(&mut dims, 2, 3, 50);
    assert_eq!(dims, vec![[0, 10], [14, 24], [24, 34]]);
}

#[test]
fn label_lines_stack_downwards() {
    let lines = vec![Some((10, 5)), None, Some((20, 6)), Some((3, 4))];
    let (tops, w, h) = label_lines(&lines);
    assert_eq!(tops, vec![0, 10, 16]);
    assert_eq!((w, h), (20, 15));
    // an empty first line moves by the height of no line
    let (tops, w, h) = label_lines(&vec![None, Some((5, 5))]);
    assert_eq!(tops, vec![0]);
    assert_eq!((w, h), (5, 5));
    let (tops, w, h) = label_lines(&vec![]);
    assert!(tops.is_empty());
    assert_eq!((w, h), (0, 0));
}

#[test]
fn a_selection_closes_when_an_option_is_picked_or_the_pointer_presses_outside() {
    let button = UiRect { min_x: 10, min_y: 20, max_x: 60, max_y: 40 };
    assert_eq!(select_step(true, button, None, false), (true, IVec2::new(10, 40), None));
    assert_eq!(select_step(true, button, Some(2), false), (false, IVec2::new(10, 40), Some(2)));
    assert_eq!(select_step(true, button, None, true).0, false);
    assert_eq!(select_step(false, button, None, false).0, false);
    // a closed menu reads no option
    assert_eq!(select_step(false, button, Some(0), false), (false, IVec2::new(10, 40), None));
}

#[test]
fn an_overlay_restores_the_frame_it_was_opened_in() {
    let screen = UiRect { min_x: 0, min_y: 0, max_x: 800, max_y: 600 };
    let mut f = UiFrame {
        layer: 3,
        bounds: screen,
        layout_dir: LayoutDirection::TopDown(HorizontalAlignment::Left),
        scissors: vec![screen],
        scissor_idx: 0,
        rect_history: Vec::new(),
    };
    let placed = UiRect { min_x: 0, min_y: 0, max_x: 50, max_y: 20 };
    f.submit_rect(placed, [0, 0, 0, 4]);
    assert_eq!(f.bounds, UiRect { min_y: 24, ..screen });
    assert_eq!(f.rect_history, vec![placed]);

    let menu = UiRect { min_x: 100, min_y: 100, max_x: 300, max_y: 400 };
    let saved = f.enter_overlay(10002, menu, menu);
    assert_eq!((f.layer, f.bounds, f.scissor_idx), (10002, menu, 1));
    assert_eq!(f.push_layer(), 10002);
    f.submit_rect(UiRect { min_x: 100, min_y: 100, max_x: 150, max_y: 120 }, [0, 0, 0, 0]);
    f.leave_overlay(saved);
    assert_eq!((f.layer, f.bounds, f.scissor_idx), (3, UiRect { min_y: 24, ..screen }, 0));
    assert_eq!(f.rect_history, vec![placed]);
    assert_eq!(f.scissors.len(), 2);
    assert_eq!(f.push_scissor(screen), 0);
    assert_eq!(f.scissor_idx, 2);
}
