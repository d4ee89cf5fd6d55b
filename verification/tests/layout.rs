use brengin::ui::layout::{
    align_rect, aling_vertical, bounding_rect, layout_rect, HorizontalAlignment, IVec2,
    LayoutDirection, RectLayoutDescriptor, VerticalAlignment, WindowAllocator,
};
use brengin::ui::rect::UiRect;

#[test]
fn test_align_left() {
    let bounds = UiRect::from_pos_size(2, 3, 10, 10);
    let mut rect = UiRect::from_pos_size(5, 5, 2, 2);

    let d = align_rect(
        &mut rect,
        &bounds,
        Some(HorizontalAlignment::Left),
        None,
        IVec2::new(1, 0),
    );

    assert_eq!(rect.min_x, bounds.min_x + 1);
    assert_eq!(rect.max_x, bounds.min_x + 1 + rect.width());
    assert_eq!(rect.min_y, 4);
    assert_eq!(rect.max_y, 6);

    assert_eq!(d.x, -6);
    assert_eq!(d.y, 0);
}

#[test]
fn test_align_right() {
    let bounds = UiRect::from_pos_size(2, 3, 20, 10);
    let mut rect = UiRect::from_pos_size(5, 5, 2, 2);

    let d = align_rect(
        &mut rect,
        &bounds,
        Some(HorizontalAlignment::Right),
        None,
        IVec2::new(1, 0),
    );

    assert_eq!(rect.min_x, bounds.max_x - 1 - 2);
    assert_eq!(rect.max_x, bounds.max_x - 1);
    assert_eq!(rect.min_y, 4);
    assert_eq!(rect.max_y, 6);

    assert_eq!(d.x, 5);
    assert_eq!(d.y, 0);
}

#[test]
fn test_align_center_horizontal() {
    let bounds = UiRect::from_pos_size(2, 3, 20, 10);
    let mut rect = UiRect::from_pos_size(-5, -5, 2, 2);

    let d = align_rect(
        &mut rect,
        &bounds,
        Some(HorizontalAlignment::Center),
        None,
        IVec2::new(1, 0),
    );

    assert_eq!(rect.min_x, 1);
    assert_eq!(rect.max_x, 3);
    assert_eq!(rect.min_y, -6);
    assert_eq!(rect.max_y, -4);

    assert_eq!(d.x, 7);
    assert_eq!(d.y, 0);
}

#[test]
fn test_align_top() {
    let bounds = UiRect::from_pos_size(2, 3, 10, 10);
    let mut rect = UiRect::from_pos_size(5, 5, 2, 2);

    let d = align_rect(
        &mut rect,
        &bounds,
        None,
        Some(VerticalAlignment::Top),
        IVec2::new(0, 1),
    );

    assert_eq!(rect.min_x, 4);
    assert_eq!(rect.max_x, 6);
    assert_eq!(rect.min_y, -1);
    assert_eq!(rect.max_y, 1);

    assert_eq!(d.x, 0);
    assert_eq!(d.y, -5);
}

#[test]
fn test_align_bottom() {
    let bounds = UiRect::from_pos_size(2, 3, 20, 10);
    let mut rect = UiRect::from_pos_size(5, 5, 2, 2);

    let d = align_rect(
        &mut rect,
        &bounds,
        None,
        Some(VerticalAlignment::Bottom),
        IVec2::new(0, 1),
    );

    assert_eq!(rect.min_x, 4);
    assert_eq!(rect.max_x, 6);
    assert_eq!(rect.min_y, 5);
    assert_eq!(rect.max_y, 7);

    assert_eq!(d.x, 0);
    assert_eq!(d.y, 1);
}

#[test]
fn test_align_center_vertical() {
    let bounds = UiRect::from_pos_size(2, 3, 20, 10);
    let mut rect = UiRect::from_pos_size(-5, -5, 2, 2);

    let d = align_rect(
        &mut rect,
        &bounds,
        None,
        Some(VerticalAlignment::Center),
        IVec2::splat(100), // ignored
    );

    assert_eq!(rect.min_x, -6);
    assert_eq!(rect.max_x, -4);
    assert_eq!(rect.min_y, 2);
    assert_eq!(rect.max_y, 4);

    assert_eq!(d.x, 0);
    assert_eq!(d.y, 8);
}

#[test]
fn rect_from_pos_size_rounds_halves() {
    let r = UiRect::from_pos_size(0, 0, 5, -5);
    assert_eq!((r.min_x, r.max_x), (-2, 3));
    assert_eq!((r.min_y, r.max_y), (2, -3));
    assert_eq!(r.center_x(), 1);
}

#[test]
fn rect_grow_shrink_and_intersection() {
    let mut r = UiRect { min_x: 0, min_y: 0, max_x: 10, max_y: 10 };
    r.shrink_x(4);
    assert_eq!((r.min_x, r.max_x), (2, 8));
    r.shrink_x(20);
    assert_eq!((r.min_x, r.max_x), (-2, 12));
    r.grow_y(3);
    assert_eq!((r.min_y, r.max_y), (-1, 12));
    r.resize_w(4);
    assert_eq!(r.width(), 4);
    r.move_to_x(100);
    assert_eq!(r.center_x(), 100);

    let a = UiRect { min_x: 0, min_y: 0, max_x: 10, max_y: 10 };
    let b = UiRect { min_x: 5, min_y: -5, max_x: 20, max_y: 5 };
    assert_eq!(a.intersection(b), Some(UiRect { min_x: 5, min_y: 0, max_x: 10, max_y: 5 }));
    let c = UiRect { min_x: 11, min_y: 0, max_x: 12, max_y: 1 };
    assert_eq!(a.intersection(c), None);
    assert_eq!(a.grow_over(c), UiRect { min_x: 0, min_y: 0, max_x: 12, max_y: 10 });
    assert_eq!(a.grow_over_point(-3, 15), UiRect { min_x: -3, min_y: 0, max_x: 10, max_y: 15 });
    assert!(a.contains_point(10, 0));
    assert!(!a.contains_point(11, 0));
}

#[test]
fn bounding_rect_covers_history() {
    assert_eq!(bounding_rect(&[]), UiRect::default());
    let rs = [
        UiRect { min_x: 0, min_y: 0, max_x: 1, max_y: 1 },
        UiRect { min_x: -4, min_y: 2, max_x: 0, max_y: 9 },
        UiRect { min_x: 3, min_y: -1, max_x: 5, max_y: 0 },
    ];
    assert_eq!(bounding_rect(&rs), UiRect { min_x: -4, min_y: -1, max_x: 5, max_y: 9 });
}

#[test]
fn layout_top_down_clamps_to_padding() {
    let bounds = UiRect { min_x: 0, min_y: 0, max_x: 100, max_y: 50 };
    let r = layout_rect(RectLayoutDescriptor {
        width: 20,
        height: 80,
        padding: [1, 2, 3, 4],
        dir: LayoutDirection::TopDown(HorizontalAlignment::Right),
        bounds,
    });
    assert_eq!(r, UiRect { min_x: 80, min_y: 3, max_x: 100, max_y: 46 });

    let r = layout_rect(RectLayoutDescriptor {
        width: 20,
        height: 10,
        padding: [1, 2, 3, 4],
        dir: LayoutDirection::RightLeft(VerticalAlignment::Top),
        bounds,
    });
    assert_eq!(r, UiRect { min_x: 78, min_y: 0, max_x: 98, max_y: 10 });

    let r = layout_rect(RectLayoutDescriptor {
        width: 20,
        height: 10,
        padding: [0, 0, 0, 0],
        dir: LayoutDirection::Center,
        bounds,
    });
    // centered vertically, then centered horizontally
    assert_eq!(r, UiRect { min_x: 40, min_y: 20, max_x: 60, max_y: 30 });

    // a 4 by 2 rect laid out left to right, centered vertically in a 10 by 10 box
    let r = layout_rect(RectLayoutDescriptor {
        width: 4,
        height: 2,
        padding: [0, 0, 0, 0],
        dir: LayoutDirection::LeftRight(VerticalAlignment::Center),
        bounds: UiRect { min_x: 0, min_y: 0, max_x: 10, max_y: 10 },
    });
    assert_eq!(r, UiRect { min_x: 0, min_y: 4, max_x: 4, max_y: 6 });
}

#[test]
fn aling_vertical_centers_and_lines_up_bottoms() {
    let bounds = UiRect { min_x: 0, min_y: 0, max_x: 10, max_y: 10 };
    let r = UiRect { min_x: 0, min_y: 0, max_x: 2, max_y: 2 };
    assert_eq!(
        aling_vertical(VerticalAlignment::Center, r, bounds),
        UiRect { min_x: 0, min_y: 4, max_x: 2, max_y: 6 }
    );
    assert_eq!(
        aling_vertical(VerticalAlignment::Bottom, r, bounds),
        UiRect { min_x: 0, min_y: 8, max_x: 2, max_y: 10 }
    );
}

#[test]
fn window_allocator_wraps_rows() {
    let bounds = UiRect { min_x: 0, min_y: 0, max_x: 100, max_y: 100 };
    let mut a = WindowAllocator { next: IVec2::new(10, 10) };
    assert_eq!(a.next_pos(IVec2::new(50, 40), bounds), IVec2::new(10, 10));
    assert_eq!(a.next, IVec2::new(60, 10));
    assert_eq!(a.next_pos(IVec2::new(50, 40), bounds), IVec2::new(60, 10));
    assert_eq!(a.next, IVec2::new(0, 50));
    a.next_pos(IVec2::new(200, 60), bounds);
    assert_eq!(a.next, IVec2::new(0, 0));
}
