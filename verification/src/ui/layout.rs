//! Placement of rectangles inside their bounds.

use vstd::prelude::*;

use super::rect::{fits_i32, max_int, min_int, rect, spec_grow_over, UiRect};
use super::spec_half_ceil;

verus! {

/// An integer 2D vector.
#[derive(Debug, Clone, Copy, PartialEq, Eq, Structural, Hash, Default)]
pub struct IVec2 {
    pub x: i32,
    pub y: i32,
}

impl IVec2 {
    pub fn new(x: i32, y: i32) -> (v: Self)
        ensures
            v.x == x,
            v.y == y,
    {
        IVec2 { x, y }
    }

    pub fn splat(v: i32) -> (r: Self)
        ensures
            r.x == v,
            r.y == v,
    {
        IVec2 { x: v, y: v }
    }

}

#[derive(Debug, Clone, Copy, PartialEq, Eq, Structural)]
pub enum HorizontalAlignment {
    Left,
    Center,
    Right,
}

impl Default for HorizontalAlignment {
    fn default() -> (r: Self)
        ensures
            r == HorizontalAlignment::Left,
    {
        HorizontalAlignment::Left
    }
}

#[derive(Debug, Clone, Copy, PartialEq, Eq, Structural)]
pub enum VerticalAlignment {
    Top,
    Center,
    Bottom,
}

impl Default for VerticalAlignment {
    fn default() -> (r: Self)
        ensures
            r == VerticalAlignment::Top,
    {
        VerticalAlignment::Top
    }
}

/// The direction in which a container places its children.
#[derive(Debug, Clone, Copy, PartialEq, Eq, Structural)]
pub enum LayoutDirection {
    Center,
    TopDown(HorizontalAlignment),
    BottomUp(HorizontalAlignment),
    LeftRight(VerticalAlignment),
    RightLeft(VerticalAlignment),
}

/// A length, either in pixels or as a percentage of the available space.
#[derive(Debug, Clone, Copy, PartialEq, Eq, Structural)]
pub enum UiCoord {
    Absolute(i32),
    Percent(i8),
}

impl Default for UiCoord {
    fn default() -> (r: Self)
        ensures
            r == UiCoord::Absolute(0),
    {
        UiCoord::Absolute(0)
    }
}

impl From<i32> for UiCoord {
    fn from(value: i32) -> (r: Self) {
        UiCoord::Absolute(value)
    }
}

impl vstd::std_specs::convert::FromSpecImpl<i32> for UiCoord {
    open spec fn obeys_from_spec() -> bool {
        true
    }

    open spec fn from_spec(v: i32) -> UiCoord {
        UiCoord::Absolute(v)
    }
}

/// Padding on each side; a missing side has no padding.
#[derive(Debug, Clone, Copy, PartialEq, Eq, Structural)]
pub struct Padding {
    pub left: Option<UiCoord>,
    pub right: Option<UiCoord>,
    pub top: Option<UiCoord>,
    pub bottom: Option<UiCoord>,
}

/// `a` if it is set, else `b`.
pub open spec fn or_else<T>(a: Option<T>, b: Option<T>) -> Option<T> {
    match a {
        Some(_) => a,
        None => b,
    }
}

impl Default for Padding {
    fn default() -> (r: Self)
        ensures
            r == (Padding { left: None, right: None, top: None, bottom: None }),
    {
        Padding { left: None, right: None, top: None, bottom: None }
    }
}

impl Padding {
    /// Combine two padding structs. If a given padding field is Some in `self`,
    /// then it is selected, else the corresponding field in `other` is selected.
    pub fn or(self, other: Padding) -> (r: Self)
        ensures
            r.left == or_else(self.left, other.left),
            r.right == or_else(self.right, other.right),
            r.top == or_else(self.top, other.top),
            r.bottom == or_else(self.bottom, other.bottom),
    {
        Padding {
            left: match self.left {
                Some(c) => Some(c),
                None => other.left,
            },
            right: match self.right {
                Some(c) => Some(c),
                None => other.right,
            },
            top: match self.top {
                Some(c) => Some(c),
                None => other.top,
            },
            bottom: match self.bottom {
                Some(c) => Some(c),
                None => other.bottom,
            },
        }
    }

    /// The same padding on every side.
    pub fn splat(p: UiCoord) -> (r: Self)
        ensures
            r == (Padding { left: Some(p), right: Some(p), top: Some(p), bottom: Some(p) }),
    {
        Padding { left: Some(p), right: Some(p), top: Some(p), bottom: Some(p) }
    }

    /// Padding on the left and right only.
    pub fn horizontal(c: UiCoord) -> (r: Self)
        ensures
            r == (Padding { left: Some(c), right: Some(c), top: None, bottom: None }),
    {
        Padding { left: Some(c), right: Some(c), top: None, bottom: None }
    }

    /// Padding on the top and bottom only.
    pub fn vertical(c: UiCoord) -> (r: Self)
        ensures
            r == (Padding { left: None, right: None, top: Some(c), bottom: Some(c) }),
    {
        Padding { left: None, right: None, top: Some(c), bottom: Some(c) }
    }
}

/// The horizontal offset that aligns `r` in `bounds`.
pub open spec fn spec_align_dx(
    r: UiRect,
    bounds: UiRect,
    horizontal: Option<HorizontalAlignment>,
    padding: IVec2,
) -> int {
    match horizontal {
        Some(HorizontalAlignment::Left) => bounds.min_x + padding.x - r.min_x,
        Some(HorizontalAlignment::Center) => bounds.spec_center_x() - r.spec_center_x(),
        Some(HorizontalAlignment::Right) => bounds.max_x - padding.x - r.max_x,
        None => 0,
    }
}

/// The vertical offset that aligns `r` in `bounds`.
pub open spec fn spec_align_dy(
    r: UiRect,
    bounds: UiRect,
    vertical: Option<VerticalAlignment>,
    padding: IVec2,
) -> int {
    match vertical {
        Some(VerticalAlignment::Top) => bounds.min_y + padding.y - r.min_y,
        Some(VerticalAlignment::Center) => bounds.spec_center_y() - r.spec_center_y(),
        Some(VerticalAlignment::Bottom) => bounds.max_y - padding.y - r.max_y,
        None => 0,
    }
}

/// Every intermediate value of the horizontal alignment fits in an `i32`.
pub open spec fn align_x_fits(
    r: UiRect,
    bounds: UiRect,
    horizontal: Option<HorizontalAlignment>,
    padding: IVec2,
) -> bool {
    &&& match horizontal {
        Some(HorizontalAlignment::Left) => fits_i32(bounds.min_x + padding.x),
        Some(HorizontalAlignment::Center) => fits_i32(bounds.max_x - bounds.min_x) && fits_i32(
            r.max_x - r.min_x,
        ),
        Some(HorizontalAlignment::Right) => fits_i32(bounds.max_x - padding.x),
        None => true,
    }
    &&& fits_i32(spec_align_dx(r, bounds, horizontal, padding))
    &&& fits_i32(r.min_x + spec_align_dx(r, bounds, horizontal, padding))
    &&& fits_i32(r.max_x + spec_align_dx(r, bounds, horizontal, padding))
}

/// Every intermediate value of the vertical alignment fits in an `i32`.
pub open spec fn align_y_fits(
    r: UiRect,
    bounds: UiRect,
    vertical: Option<VerticalAlignment>,
    padding: IVec2,
) -> bool {
    &&& match vertical {
        Some(VerticalAlignment::Top) => fits_i32(bounds.min_y + padding.y),
        Some(VerticalAlignment::Center) => fits_i32(bounds.max_y - bounds.min_y) && fits_i32(
            r.max_y - r.min_y,
        ),
        Some(VerticalAlignment::Bottom) => fits_i32(bounds.max_y - padding.y),
        None => true,
    }
    &&& fits_i32(spec_align_dy(r, bounds, vertical, padding))
    &&& fits_i32(r.min_y + spec_align_dy(r, bounds, vertical, padding))
    &&& fits_i32(r.max_y + spec_align_dy(r, bounds, vertical, padding))
}

/// `r` moved by `(dx, dy)`.
pub open spec fn spec_offset(r: UiRect, dx: int, dy: int) -> UiRect {
    rect(r.min_x + dx, r.min_y + dy, r.max_x + dx, r.max_y + dy)
}

/// Align `rect` inside `bounds`, keeping `padding` from the aligned edge.
/// Returns the offset by which the rect was repositioned.
pub fn align_rect(
    rect: &mut UiRect,
    bounds: &UiRect,
    horizontal: Option<HorizontalAlignment>,
    vertical: Option<VerticalAlignment>,
    padding: IVec2,
) -> (d: IVec2)
    requires
        align_x_fits(*old(rect), *bounds, horizontal, padding),
        align_y_fits(*old(rect), *bounds, vertical, padding),
    ensures
        d.x == spec_align_dx(*old(rect), *bounds, horizontal, padding),
        d.y == spec_align_dy(*old(rect), *bounds, vertical, padding),
        *final(rect) == spec_offset(*old(rect), d.x as int, d.y as int),
{
    let dx: i32 = match horizontal {
        Some(HorizontalAlignment::Left) => {
            let min_x = bounds.min_x + padding.x;
            min_x - rect.min_x
        },
        Some(HorizontalAlignment::Center) => {
            proof {
                super::rect::lemma_half_ceil_bounds(bounds.max_x - bounds.min_x);
                super::rect::lemma_half_ceil_bounds(rect.max_x - rect.min_x);
            }
            bounds.center_x() - rect.center_x()
        },
        Some(HorizontalAlignment::Right) => {
            let max_x = bounds.max_x - padding.x;
            max_x - rect.max_x
        },
        None => 0,
    };
    let dy: i32 = match vertical {
        Some(VerticalAlignment::Top) => {
            let min_y = bounds.min_y + padding.y;
            min_y - rect.min_y
        },
        Some(VerticalAlignment::Center) => {
            proof {
                super::rect::lemma_half_ceil_bounds(bounds.max_y - bounds.min_y);
                super::rect::lemma_half_ceil_bounds(rect.max_y - rect.min_y);
            }
            bounds.center_y() - rect.center_y()
        },
        Some(VerticalAlignment::Bottom) => {
            let max_y = bounds.max_y - padding.y;
            max_y - rect.max_y
        },
        None => 0,
    };
    rect.offset_x(dx);
    rect.offset_y(dy);
    IVec2::new(dx, dy)
}

/// The horizontal offset that [`aling_horizontal`] applies.
pub open spec fn spec_aling_dx(alignment: HorizontalAlignment, r: UiRect, bounds: UiRect) -> int {
    match alignment {
        HorizontalAlignment::Left => bounds.min_x - r.min_x,
        HorizontalAlignment::Right => bounds.max_x - r.max_x,
        HorizontalAlignment::Center => bounds.spec_center_x() - r.spec_center_x(),
    }
}

/// The vertical offset that [`aling_vertical`] applies: `Top` lines up the
/// top edges, `Center` the centers and `Bottom` the bottom edges.
pub open spec fn spec_aling_dy(alignment: VerticalAlignment, r: UiRect, bounds: UiRect) -> int {
    match alignment {
        VerticalAlignment::Top => bounds.min_y - r.min_y,
        VerticalAlignment::Center => bounds.spec_center_y() - r.spec_center_y(),
        VerticalAlignment::Bottom => bounds.max_y - r.max_y,
    }
}

/// Every intermediate value of [`aling_horizontal`] fits in an `i32`.
pub open spec fn aling_x_fits(alignment: HorizontalAlignment, r: UiRect, bounds: UiRect) -> bool {
    &&& (alignment == HorizontalAlignment::Center ==> fits_i32(bounds.max_x - bounds.min_x)
        && fits_i32(r.max_x - r.min_x))
    &&& fits_i32(spec_aling_dx(alignment, r, bounds))
    &&& fits_i32(r.min_x + spec_aling_dx(alignment, r, bounds))
    &&& fits_i32(r.max_x + spec_aling_dx(alignment, r, bounds))
}

/// Every intermediate value of [`aling_vertical`] fits in an `i32`.
pub open spec fn aling_y_fits(alignment: VerticalAlignment, r: UiRect, bounds: UiRect) -> bool {
    &&& (alignment == VerticalAlignment::Center ==> fits_i32(bounds.max_y - bounds.min_y)
        && fits_i32(r.max_y - r.min_y))
    &&& fits_i32(spec_aling_dy(alignment, r, bounds))
    &&& fits_i32(r.min_y + spec_aling_dy(alignment, r, bounds))
    &&& fits_i32(r.max_y + spec_aling_dy(alignment, r, bounds))
}

/// Move `rect` horizontally to the given side of `bounds`.
pub fn aling_horizontal(alignment: HorizontalAlignment, rect: UiRect, bounds: UiRect) -> (r: UiRect)
    requires
        aling_x_fits(alignment, rect, bounds),
    ensures
        r == spec_offset(rect, spec_aling_dx(alignment, rect, bounds), 0),
{
    let mut rect = rect;
    let delta = match alignment {
        HorizontalAlignment::Left => bounds.min_x - rect.min_x,
        HorizontalAlignment::Right => bounds.max_x - rect.max_x,
        HorizontalAlignment::Center => {
            proof {
                super::rect::lemma_half_ceil_bounds(bounds.max_x - bounds.min_x);
                super::rect::lemma_half_ceil_bounds(rect.max_x - rect.min_x);
            }
            bounds.center_x() - rect.center_x()
        },
    };
    rect.offset_x(delta);
    rect
}

/// Move `rect` vertically within `bounds`.
pub fn aling_vertical(alignment: VerticalAlignment, rect: UiRect, bounds: UiRect) -> (r: UiRect)
    requires
        aling_y_fits(alignment, rect, bounds),
    ensures
        r == spec_offset(rect, 0, spec_aling_dy(alignment, rect, bounds)),
{
    let mut rect = rect;
    let delta = match alignment {
        VerticalAlignment::Top => bounds.min_y - rect.min_y,
        VerticalAlignment::Center => {
            proof {
                super::rect::lemma_half_ceil_bounds(bounds.max_y - bounds.min_y);
                super::rect::lemma_half_ceil_bounds(rect.max_y - rect.min_y);
            }
            bounds.center_y() - rect.center_y()
        },
        VerticalAlignment::Bottom => bounds.max_y - rect.max_y,
    };
    rect.offset_y(delta);
    rect
}

/// What to lay out: the size of the rect, the absolute padding of the
/// container (left, right, top, bottom), the direction of the container and
/// its bounds.
pub struct RectLayoutDescriptor {
    pub width: i32,
    pub height: i32,
    pub padding: [i32; 4],
    pub dir: LayoutDirection,
    pub bounds: UiRect,
}

/// The rect placed along the layout direction, before alignment across it.
pub open spec fn spec_layout_placed(
    width: int,
    height: int,
    padding: Seq<i32>,
    dir: LayoutDirection,
    b: UiRect,
) -> UiRect {
    let (p_left, p_right, p_top, p_bot) = (
        padding[0] as int,
        padding[1] as int,
        padding[2] as int,
        padding[3] as int,
    );
    match dir {
        LayoutDirection::TopDown(_) => rect(
            b.min_x as int,
            b.min_y + p_top,
            b.min_x + width,
            min_int(b.min_y + p_top + height, b.max_y - p_bot),
        ),
        LayoutDirection::BottomUp(_) => rect(
            b.min_x as int,
            max_int(b.max_y - p_bot - height, b.min_y + p_top),
            b.min_x + width,
            b.max_y - p_bot,
        ),
        LayoutDirection::LeftRight(_) => rect(
            b.min_x + p_left,
            b.min_y as int,
            min_int(b.min_x + p_left + width, b.max_x - p_right),
            b.min_y + height,
        ),
        LayoutDirection::RightLeft(_) => rect(
            max_int(b.max_x - p_right - width, b.min_x + p_left),
            b.min_y as int,
            b.max_x - p_right,
            b.min_y + height,
        ),
        LayoutDirection::Center => rect(
            b.min_x as int,
            b.min_y as int,
            b.min_x + width,
            b.min_y + height,
        ),
    }
}

/// The placed rect, aligned across the layout direction.
pub open spec fn spec_layout_rect(
    width: int,
    height: int,
    padding: Seq<i32>,
    dir: LayoutDirection,
    b: UiRect,
) -> UiRect {
    let placed = spec_layout_placed(width, height, padding, dir, b);
    match dir {
        LayoutDirection::TopDown(hor) => spec_offset(placed, spec_aling_dx(hor, placed, b), 0),
        LayoutDirection::BottomUp(hor) => spec_offset(placed, spec_aling_dx(hor, placed, b), 0),
        LayoutDirection::LeftRight(ver) => spec_offset(placed, 0, spec_aling_dy(ver, placed, b)),
        LayoutDirection::RightLeft(ver) => spec_offset(placed, 0, spec_aling_dy(ver, placed, b)),
        LayoutDirection::Center => {
            let v = spec_offset(placed, 0, spec_aling_dy(VerticalAlignment::Center, placed, b));
            spec_offset(v, spec_aling_dx(HorizontalAlignment::Center, v, b), 0)
        },
    }
}

/// Every intermediate value of [`layout_rect`] fits in an `i32`.
pub open spec fn layout_fits(
    width: int,
    height: int,
    padding: Seq<i32>,
    dir: LayoutDirection,
    b: UiRect,
) -> bool {
    let (p_left, p_right, p_top, p_bot) = (
        padding[0] as int,
        padding[1] as int,
        padding[2] as int,
        padding[3] as int,
    );
    let placed = spec_layout_placed(width, height, padding, dir, b);
    &&& fits_i32(b.min_x + width)
    &&& fits_i32(b.min_y + height)
    &&& match dir {
        LayoutDirection::TopDown(hor) => fits_i32(b.min_y + p_top) && fits_i32(
            b.min_y + p_top + height,
        ) && fits_i32(b.max_y - p_bot) && aling_x_fits(hor, placed, b),
        LayoutDirection::BottomUp(hor) => fits_i32(b.max_y - p_bot) && fits_i32(
            b.max_y - p_bot - height,
        ) && fits_i32(b.min_y + p_top) && aling_x_fits(hor, placed, b),
        LayoutDirection::LeftRight(ver) => fits_i32(b.min_x + p_left) && fits_i32(
            b.min_x + p_left + width,
        ) && fits_i32(b.max_x - p_right) && aling_y_fits(ver, placed, b),
        LayoutDirection::RightLeft(ver) => fits_i32(b.max_x - p_right) && fits_i32(
            b.max_x - p_right - width,
        ) && fits_i32(b.min_x + p_left) && aling_y_fits(ver, placed, b),
        LayoutDirection::Center => aling_y_fits(VerticalAlignment::Center, placed, b)
            && aling_x_fits(
            HorizontalAlignment::Center,
            spec_offset(placed, 0, spec_aling_dy(VerticalAlignment::Center, placed, b)),
            b,
        ),
    }
}

/// Place a rect of the given size in the bounds of a container.
pub fn layout_rect(desc: RectLayoutDescriptor) -> (r: UiRect)
    requires
        layout_fits(desc.width as int, desc.height as int, desc.padding@, desc.dir, desc.bounds),
    ensures
        r == spec_layout_rect(desc.width as int, desc.height as int, desc.padding@, desc.dir, desc.bounds),
{
    let bounds = desc.bounds;
    let mut rect = UiRect {
        min_x: bounds.min_x,
        min_y: bounds.min_y,
        max_x: bounds.min_x + desc.width,
        max_y: bounds.min_y + desc.height,
    };
    let p_left = desc.padding[0];
    let p_right = desc.padding[1];
    let p_top = desc.padding[2];
    let p_bot = desc.padding[3];
    match desc.dir {
        LayoutDirection::TopDown(hor) => {
            rect.min_y = bounds.min_y + p_top;
            let end = rect.min_y + desc.height;
            let limit = bounds.max_y - p_bot;
            rect.max_y = if end <= limit { end } else { limit };
            rect = aling_horizontal(hor, rect, bounds);
        },
        LayoutDirection::BottomUp(hor) => {
            rect.max_y = bounds.max_y - p_bot;
            let start = rect.max_y - desc.height;
            let limit = bounds.min_y + p_top;
            rect.min_y = if start >= limit { start } else { limit };
            rect = aling_horizontal(hor, rect, bounds);
        },
        LayoutDirection::LeftRight(ver) => {
            rect.min_x = bounds.min_x + p_left;
            let end = rect.min_x + desc.width;
            let limit = bounds.max_x - p_right;
            rect.max_x = if end <= limit { end } else { limit };
            rect = aling_vertical(ver, rect, bounds);
        },
        LayoutDirection::RightLeft(ver) => {
            rect.max_x = bounds.max_x - p_right;
            let start = rect.max_x - desc.width;
            let limit = bounds.min_x + p_left;
            rect.min_x = if start >= limit { start } else { limit };
            rect = aling_vertical(ver, rect, bounds);
        },
        LayoutDirection::Center => {
            rect = aling_vertical(VerticalAlignment::Center, rect, bounds);
            rect = aling_horizontal(HorizontalAlignment::Center, rect, bounds);
        },
    }
    rect
}

/// A laid out rect starts at the padded edge its direction starts from, is as
/// long along the direction as asked unless the padded bounds are shorter, and
/// keeps the asked size across the direction. A centered layout keeps both
/// sizes.
pub proof fn lemma_layout_rect_extent(
    width: int,
    height: int,
    padding: Seq<i32>,
    dir: LayoutDirection,
    b: UiRect,
)
    requires
        padding.len() == 4,
        layout_fits(width, height, padding, dir, b),
    ensures
        ({
            let r = spec_layout_rect(width, height, padding, dir, b);
            let (p_left, p_right, p_top, p_bot) = (
                padding[0] as int,
                padding[1] as int,
                padding[2] as int,
                padding[3] as int,
            );
            let room_y = (b.max_y - p_bot) - (b.min_y + p_top);
            let room_x = (b.max_x - p_right) - (b.min_x + p_left);
            &&& dir is TopDown ==> r.min_y == b.min_y + p_top && r.max_y - r.min_y == min_int(
                height,
                room_y,
            ) && r.max_x - r.min_x == width
            &&& dir is BottomUp ==> r.max_y == b.max_y - p_bot && r.max_y - r.min_y == min_int(
                height,
                room_y,
            ) && r.max_x - r.min_x == width
            &&& dir is LeftRight ==> r.min_x == b.min_x + p_left && r.max_x - r.min_x == min_int(
                width,
                room_x,
            ) && r.max_y - r.min_y == height
            &&& dir is RightLeft ==> r.max_x == b.max_x - p_right && r.max_x - r.min_x == min_int(
                width,
                room_x,
            ) && r.max_y - r.min_y == height
            &&& dir is Center ==> r.max_x - r.min_x == width && r.max_y - r.min_y == height
        }),
{
}

/// Across the layout direction, a laid out rect lines up with the side of the
/// bounds that its alignment names, or shares their center; a centered
/// layout shares the center of the bounds on both axes.
pub proof fn lemma_layout_rect_aligned(
    width: int,
    height: int,
    padding: Seq<i32>,
    dir: LayoutDirection,
    b: UiRect,
)
    requires
        padding.len() == 4,
        layout_fits(width, height, padding, dir, b),
    ensures
        ({
            let r = spec_layout_rect(width, height, padding, dir, b);
            &&& (dir == LayoutDirection::TopDown(HorizontalAlignment::Left) || dir
                == LayoutDirection::BottomUp(HorizontalAlignment::Left)) ==> r.min_x == b.min_x
            &&& (dir == LayoutDirection::TopDown(HorizontalAlignment::Right) || dir
                == LayoutDirection::BottomUp(HorizontalAlignment::Right)) ==> r.max_x == b.max_x
            &&& (dir == LayoutDirection::LeftRight(VerticalAlignment::Top) || dir
                == LayoutDirection::RightLeft(VerticalAlignment::Top)) ==> r.min_y == b.min_y
            &&& (dir == LayoutDirection::LeftRight(VerticalAlignment::Bottom) || dir
                == LayoutDirection::RightLeft(VerticalAlignment::Bottom)) ==> r.max_y == b.max_y
            &&& (dir == LayoutDirection::TopDown(HorizontalAlignment::Center) || dir
                == LayoutDirection::BottomUp(HorizontalAlignment::Center) || dir
                == LayoutDirection::Center) ==> r.spec_center_x() == b.spec_center_x()
            &&& (dir == LayoutDirection::LeftRight(VerticalAlignment::Center) || dir
                == LayoutDirection::RightLeft(VerticalAlignment::Center) || dir
                == LayoutDirection::Center) ==> r.spec_center_y() == b.spec_center_y()
        }),
{
}

/// The smallest rect covering all of `history`; the default rect when empty.
pub open spec fn spec_bounding_rect(history: Seq<UiRect>) -> UiRect
    decreases history.len(),
{
    if history.len() == 0 {
        rect(0, 0, 0, 0)
    } else if history.len() == 1 {
        history[0]
    } else {
        spec_grow_over(spec_bounding_rect(history.drop_last()), history.last())
    }
}

/// The smallest rect covering all of `history`.
pub fn bounding_rect(history: &[UiRect]) -> (r: UiRect)
    ensures
        r == spec_bounding_rect(history@),
{
    if history.len() == 0 {
        return UiRect::default();
    }
    let mut acc = history[0];
    let mut i: usize = 1;
    while i < history.len()
        invariant
            1 <= i <= history.len(),
            acc == spec_bounding_rect(history@.subrange(0, i as int)),
        decreases history.len() - i,
    {
        assert(history@.subrange(0, i + 1).drop_last() =~= history@.subrange(0, i as int));
        acc = acc.grow_over(history[i]);
        i += 1;
    }
    assert(history@.subrange(0, history.len() as int) =~= history@);
    acc
}

/// Every rect of `history` lies inside its bounding rect.
pub proof fn lemma_bounding_rect_covers(history: Seq<UiRect>, i: int)
    requires
        0 <= i < history.len(),
    ensures
        spec_bounding_rect(history).min_x <= history[i].min_x,
        spec_bounding_rect(history).min_y <= history[i].min_y,
        history[i].max_x <= spec_bounding_rect(history).max_x,
        history[i].max_y <= spec_bounding_rect(history).max_y,
    decreases history.len(),
{
    if history.len() > 1 && i < history.len() - 1 {
        lemma_bounding_rect_covers(history.drop_last(), i);
    }
}

/// Places new windows left to right, row by row, inside the screen.
#[derive(Debug, Clone, Copy, PartialEq, Eq, Structural, Default)]
pub struct WindowAllocator {
    pub next: IVec2,
}

/// Where the allocator continues after placing a window of `size`.
pub open spec fn spec_next_pos(next: IVec2, size: IVec2, bounds: UiRect) -> IVec2 {
    if next.x + size.x < bounds.max_x {
        IVec2 { x: (next.x + size.x) as i32, y: next.y }
    } else if next.y + size.y > bounds.max_y {
        IVec2 { x: bounds.min_x, y: bounds.min_y }
    } else {
        IVec2 { x: bounds.min_x, y: (next.y + size.y) as i32 }
    }
}

impl WindowAllocator {
    /// The position of the next window of `size`.
    pub fn next_pos(&mut self, size: IVec2, bounds: UiRect) -> (r: IVec2)
        requires
            fits_i32(old(self).next.x + size.x),
            old(self).next.x + size.x >= bounds.max_x ==> fits_i32(old(self).next.y + size.y),
        ensures
            r == old(self).next,
            final(self).next == spec_next_pos(old(self).next, size, bounds),
    {
        let res = self.next;
        if self.next.x + size.x < bounds.max_x {
            self.next.x = self.next.x + size.x;
        } else {
            self.next.y = self.next.y + size.y;
            self.next.x = bounds.min_x;
            if self.next.y > bounds.max_y {
                self.next.y = bounds.min_y;
            }
        }
        res
    }
}

/// Windows of non-negative size are placed inside the screen: once the
/// allocator's position is inside the bounds, it stays there.
pub proof fn lemma_next_pos_stays_inside(next: IVec2, size: IVec2, bounds: UiRect)
    requires
        bounds.min_x <= next.x <= bounds.max_x,
        bounds.min_y <= next.y <= bounds.max_y,
        size.x >= 0,
        size.y >= 0,
    ensures
        bounds.min_x <= spec_next_pos(next, size, bounds).x <= bounds.max_x,
        bounds.min_y <= spec_next_pos(next, size, bounds).y <= bounds.max_y,
{
}

} // verus!
