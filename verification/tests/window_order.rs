use brengin::ui::window_order::{layer_in_band, next_base, WindowOrder};
use brengin::ui::{CONTEXT_LAYER, WINDOW_LAYER};

#[test]
fn test_next_base_is_a_prefix_sum() {
    let mut base = WINDOW_LAYER;
    let mut bases = Vec::new();
    for h in [6u16, 10, 4] {
        bases.push(base);
        base = next_base(base, h);
    }

    assert_eq!(
        bases,
        vec![WINDOW_LAYER, WINDOW_LAYER + 6, WINDOW_LAYER + 16]
    );
    assert_eq!(base, WINDOW_LAYER + 20);
}

#[test]
fn test_next_base_saturates_below_context_layer() {
    assert_eq!(next_base(CONTEXT_LAYER - 10, 1000), CONTEXT_LAYER - 1);
    assert_eq!(next_base(u16::MAX - 1, 100), CONTEXT_LAYER - 1);
}

#[test]
fn test_window_order_assigns_distinct_increasing_z() {
    let mut order = WindowOrder::default();

    assert_eq!(order.z_of("a"), 0);
    assert_eq!(order.z_of("b"), 1);
    assert_eq!(order.z_of("c"), 2);
    // a known window keeps its index
    assert_eq!(order.z_of("a"), 0);
}

#[test]
fn test_window_order_apply_raise_moves_to_front() {
    let mut order = WindowOrder::default();
    order.z_of("a");
    order.z_of("b");
    order.z_of("c");

    order.raise(0, "a");
    order.apply_raise();

    assert_eq!(order.z_of("b"), 0);
    assert_eq!(order.z_of("c"), 1);
    assert_eq!(order.z_of("a"), 2);
}

#[test]
fn test_window_order_raise_keeps_frontmost_candidate() {
    let mut order = WindowOrder::default();
    order.z_of("a");
    order.z_of("b");
    order.z_of("c");

    // c is in front of a, so c wins whichever is requested first
    order.raise(2, "c");
    order.raise(0, "a");
    order.apply_raise();

    // raising the already frontmost window leaves the order untouched
    assert_eq!(order.z_of("a"), 0);
    assert_eq!(order.z_of("b"), 1);
    assert_eq!(order.z_of("c"), 2);
}

#[test]
fn test_window_order_raise_keeps_frontmost_candidate_reversed() {
    let mut order = WindowOrder::default();
    order.z_of("a");
    order.z_of("b");
    order.z_of("c");

    order.raise(0, "a");
    order.raise(2, "c");
    order.apply_raise();

    assert_eq!(order.z_of("a"), 0);
    assert_eq!(order.z_of("b"), 1);
    assert_eq!(order.z_of("c"), 2);
}

#[test]
fn test_window_order_apply_raise_without_request_is_noop() {
    let mut order = WindowOrder::default();
    order.z_of("a");
    order.z_of("b");

    order.apply_raise();

    assert_eq!(order.z_of("a"), 0);
    assert_eq!(order.z_of("b"), 1);
}

#[test]
fn test_window_order_apply_raise_consumes_the_request() {
    let mut order = WindowOrder::default();
    order.z_of("a");
    order.z_of("b");

    order.raise(0, "a");
    order.apply_raise();
    // a is now in front; a second apply must not move anything
    order.apply_raise();

    assert_eq!(order.z_of("b"), 0);
    assert_eq!(order.z_of("a"), 1);
}

#[test]
fn test_window_order_retain_drawn_compacts_indices() {
    let mut order = WindowOrder::default();
    order.z_of("a");
    order.z_of("b");
    order.z_of("c");

    order.order.retain(|name| (|name| name != "b")(name));

    assert_eq!(order.z_of("a"), 0);
    assert_eq!(order.z_of("c"), 1);
}

#[test]
fn test_window_order_raise_of_removed_window_is_ignored() {
    let mut order = WindowOrder::default();
    order.z_of("a");
    order.z_of("b");

    // a window can be closed between the press and the raise being applied
    order.raise(0, "a");
    order.order.retain(|name| (|name| name != "a")(name));
    order.apply_raise();

    assert_eq!(order.z_of("b"), 0);
}

#[test]
fn test_window_order_iter_yields_back_to_front() {
    let mut order = WindowOrder::default();
    order.z_of("a");
    order.z_of("b");
    order.z_of("c");

    order.raise(0, "a");
    order.apply_raise();

    let names: Vec<&str> = {
        let this = &order;
        this.order.iter().map(|n| n.as_str())
    }
    .collect();
    assert_eq!(names, vec!["b", "c", "a"]);
}

#[test]
fn test_layer_in_band_covers_the_full_band() {
    let base = WINDOW_LAYER;
    let height = 6u16;

    assert!(layer_in_band(base, base, height));
    assert!(layer_in_band(base + height - 1, base, height));
    assert!(!layer_in_band(base - 1, base, height));
    assert!(!layer_in_band(base + height, base, height));
}

#[test]
fn test_layer_in_band_saturates_below_context_layer() {
    let base = CONTEXT_LAYER - 10;
    let height = 1000u16;

    // the band saturates at CONTEXT_LAYER - 1, so CONTEXT_LAYER itself is
    // never inside it even though the unsaturated band would have covered it
    assert!(!layer_in_band(CONTEXT_LAYER, base, height));
}

#[test]
fn test_window_order_contains() {
    let mut order = WindowOrder::default();

    let contains = |order: &WindowOrder, name: &str| order.order.iter().any(|n| n == name);

    assert!(!contains(&order, "a"));

    order.z_of("a");
    assert!(contains(&order, "a"));

    order.order.retain(|name| (|name| name != "a")(name));
    assert!(!contains(&order, "a"));
}

// A window looked up for the first time opens in front; an unknown name
// raised is ignored; duplicates never appear.
#[test]
fn window_order_new_window_opens_in_front_and_names_stay_unique() {
    let mut order = WindowOrder::default();
    order.z_of("a");
    order.z_of("b");
    order.raise(5, "zzz");
    order.apply_raise();
    assert_eq!(order.order, vec!["a".to_string(), "b".to_string()]);
    assert!(order.raise.is_none());
    assert_eq!(order.z_of("c"), 2);
    order.raise(0, "a");
    order.apply_raise();
    order.z_of("a");
    assert_eq!(order.order, vec!["b".to_string(), "c".to_string(), "a".to_string()]);
}

// Of two requests at the same depth the first is kept.
#[test]
fn window_order_raise_tie_keeps_first() {
    let mut order = WindowOrder::default();
    order.raise(3, "x");
    order.raise(3, "y");
    assert_eq!(order.raise, Some((3, "x".to_string())));
    order.raise(4, "y");
    assert_eq!(order.raise, Some((4, "y".to_string())));
}
