//! Axis-aligned integer rectangles used by the UI layout.

use vstd::prelude::*;

use super::{div_half, div_half_ceil, spec_half, spec_half_ceil};

verus! {

/// A rectangle given by its inclusive minimum and maximum corners.
#[derive(Debug, Clone, Copy, PartialEq, Eq, Structural, Hash)]
pub struct UiRect {
    pub min_x: i32,
    pub min_y: i32,
    pub max_x: i32,
    pub max_y: i32,
}

/// The smaller of two integers.
pub open spec fn min_int(a: int, b: int) -> int {
    if a <= b {
        a
    } else {
        b
    }
}

/// The larger of two integers.
pub open spec fn max_int(a: int, b: int) -> int {
    if a >= b {
        a
    } else {
        b
    }
}

/// A value fits in an `i32`.
pub open spec fn fits_i32(v: int) -> bool {
    i32::MIN <= v <= i32::MAX
}

/// The rectangle with the given corners.
pub open spec fn rect(min_x: int, min_y: int, max_x: int, max_y: int) -> UiRect {
    UiRect { min_x: min_x as i32, min_y: min_y as i32, max_x: max_x as i32, max_y: max_y as i32 }
}

/// The smallest rectangle covering both.
pub open spec fn spec_grow_over(a: UiRect, b: UiRect) -> UiRect {
    rect(
        min_int(a.min_x as int, b.min_x as int),
        min_int(a.min_y as int, b.min_y as int),
        max_int(a.max_x as int, b.max_x as int),
        max_int(a.max_y as int, b.max_y as int),
    )
}

/// The rectangle shrunk horizontally by `v` units: half (rounded towards
/// zero) from the left, the rest from the right, corners swapped if they cross.
pub open spec fn spec_shrink_x(r: UiRect, v: int) -> UiRect {
    let lo = r.min_x + spec_half(v);
    let hi = r.max_x - spec_half_ceil(v);
    if lo > hi {
        UiRect { min_x: hi as i32, max_x: lo as i32, ..r }
    } else {
        UiRect { min_x: lo as i32, max_x: hi as i32, ..r }
    }
}

/// The rectangle shrunk vertically by `v` units, as [`spec_shrink_x`].
pub open spec fn spec_shrink_y(r: UiRect, v: int) -> UiRect {
    let lo = r.min_y + spec_half(v);
    let hi = r.max_y - spec_half_ceil(v);
    if lo > hi {
        UiRect { min_y: hi as i32, max_y: lo as i32, ..r }
    } else {
        UiRect { min_y: lo as i32, max_y: hi as i32, ..r }
    }
}

impl UiRect {
    /// The horizontal center: `min_x` plus half the width, rounded away from zero.
    pub open spec fn spec_center_x(self) -> int {
        self.min_x + spec_half_ceil(self.max_x - self.min_x)
    }

    /// The vertical center, as [`UiRect::spec_center_x`].
    pub open spec fn spec_center_y(self) -> int {
        self.min_y + spec_half_ceil(self.max_y - self.min_y)
    }

    /// The point lies inside the rectangle, edges included.
    pub open spec fn spec_contains(self, x: int, y: int) -> bool {
        self.min_x <= x <= self.max_x && self.min_y <= y <= self.max_y
    }

    /// Center x, center y, full width/height.
    pub fn from_pos_size(x: i32, y: i32, w: i32, h: i32) -> (r: Self)
        requires
            fits_i32(x - spec_half(w as int)),
            fits_i32(y - spec_half(h as int)),
            fits_i32(x + spec_half_ceil(w as int)),
            fits_i32(y + spec_half_ceil(h as int)),
        ensures
            r.min_x == x - spec_half(w as int),
            r.min_y == y - spec_half(h as int),
            r.max_x == x + spec_half_ceil(w as int),
            r.max_y == y + spec_half_ceil(h as int),
    {
        Self {
            min_x: x - div_half(w),
            min_y: y - div_half(h),
            max_x: x + div_half_ceil(w),
            max_y: y + div_half_ceil(h),
        }
    }

    /// The smallest rectangle covering `self` and `other`.
    pub fn grow_over(self, other: UiRect) -> (r: UiRect)
        ensures
            r == spec_grow_over(self, other),
    {
        let min_x = if self.min_x <= other.min_x { self.min_x } else { other.min_x };
        let min_y = if self.min_y <= other.min_y { self.min_y } else { other.min_y };
        let max_x = if self.max_x >= other.max_x { self.max_x } else { other.max_x };
        let max_y = if self.max_y >= other.max_y { self.max_y } else { other.max_y };
        UiRect { min_x, min_y, max_x, max_y }
    }

    /// The smallest rectangle covering `self` and the point.
    pub fn grow_over_point(self, x: i32, y: i32) -> (r: Self)
        ensures
            r == rect(
                min_int(self.min_x as int, x as int),
                min_int(self.min_y as int, y as int),
                max_int(self.max_x as int, x as int),
                max_int(self.max_y as int, y as int),
            ),
    {
        let mut s = self;
        s.min_x = if s.min_x <= x { s.min_x } else { x };
        s.max_x = if s.max_x >= x { s.max_x } else { x };
        s.min_y = if s.min_y <= y { s.min_y } else { y };
        s.max_y = if s.max_y >= y { s.max_y } else { y };
        s
    }

    pub fn contains_point(&self, x: i32, y: i32) -> (r: bool)
        ensures
            r == self.spec_contains(x as int, y as int),
    {
        self.min_x <= x && x <= self.max_x && self.min_y <= y && y <= self.max_y
    }

    pub fn center_x(&self) -> (r: i32)
        requires
            fits_i32(self.max_x - self.min_x),
        ensures
            r == self.spec_center_x(),
    {
        let w = self.max_x - self.min_x;
        proof {
            lemma_half_ceil_bounds(w as int);
        }
        self.min_x + div_half_ceil(w)
    }

    pub fn center_y(&self) -> (r: i32)
        requires
            fits_i32(self.max_y - self.min_y),
        ensures
            r == self.spec_center_y(),
    {
        let h = self.max_y - self.min_y;
        proof {
            lemma_half_ceil_bounds(h as int);
        }
        self.min_y + div_half_ceil(h)
    }

    pub fn width(&self) -> (r: i32)
        requires
            fits_i32(self.max_x - self.min_x),
        ensures
            r == self.max_x - self.min_x,
    {
        self.max_x - self.min_x
    }

    pub fn height(&self) -> (r: i32)
        requires
            fits_i32(self.max_y - self.min_y),
        ensures
            r == self.max_y - self.min_y,
    {
        self.max_y - self.min_y
    }

    /// Shrink by `v` units.
    pub fn shrink_x(&mut self, v: i32)
        requires
            fits_i32(old(self).min_x + spec_half(v as int)),
            fits_i32(old(self).max_x - spec_half_ceil(v as int)),
        ensures
            *final(self) == spec_shrink_x(*old(self), v as int),
    {
        self.min_x = self.min_x + div_half(v);
        self.max_x = self.max_x - div_half_ceil(v);
        if self.min_x > self.max_x {
            let t = self.min_x;
            self.min_x = self.max_x;
            self.max_x = t;
        }
    }

    /// Shrink by `v` units.
    pub fn shrink_y(&mut self, v: i32)
        requires
            fits_i32(old(self).min_y + spec_half(v as int)),
            fits_i32(old(self).max_y - spec_half_ceil(v as int)),
        ensures
            *final(self) == spec_shrink_y(*old(self), v as int),
    {
        self.min_y = self.min_y + div_half(v);
        self.max_y = self.max_y - div_half_ceil(v);
        if self.min_y > self.max_y {
            let t = self.min_y;
            self.min_y = self.max_y;
            self.max_y = t;
        }
    }

    /// Grow by `v` units.
    pub fn grow_x(&mut self, v: i32)
        requires
            v != i32::MIN,
            fits_i32(old(self).min_x + spec_half(-v)),
            fits_i32(old(self).max_x - spec_half_ceil(-v)),
        ensures
            *final(self) == spec_shrink_x(*old(self), -v),
    {
        self.shrink_x(-v);
    }

    /// Grow by `v` units.
    pub fn grow_y(&mut self, v: i32)
        requires
            v != i32::MIN,
            fits_i32(old(self).min_y + spec_half(-v)),
            fits_i32(old(self).max_y - spec_half_ceil(-v)),
        ensures
            *final(self) == spec_shrink_y(*old(self), -v),
    {
        self.shrink_y(-v);
    }

    pub fn offset_x(&mut self, d: i32)
        requires
            fits_i32(old(self).min_x + d),
            fits_i32(old(self).max_x + d),
        ensures
            *final(self) == (UiRect { min_x: (old(self).min_x + d) as i32, max_x: (old(self).max_x + d) as i32, ..*old(self) }),
    {
        self.min_x = self.min_x + d;
        self.max_x = self.max_x + d;
    }

    pub fn offset_y(&mut self, d: i32)
        requires
            fits_i32(old(self).min_y + d),
            fits_i32(old(self).max_y + d),
        ensures
            *final(self) == (UiRect { min_y: (old(self).min_y + d) as i32, max_y: (old(self).max_y + d) as i32, ..*old(self) }),
    {
        self.min_y = self.min_y + d;
        self.max_y = self.max_y + d;
    }

    /// Move horizontally so that the center lies at `x`.
    pub fn move_to_x(&mut self, x: i32)
        requires
            fits_i32(old(self).max_x - old(self).min_x),
            fits_i32(x - old(self).spec_center_x()),
            fits_i32(old(self).min_x + (x - old(self).spec_center_x())),
            fits_i32(old(self).max_x + (x - old(self).spec_center_x())),
        ensures
            *final(self) == (UiRect {
                min_x: (old(self).min_x + (x - old(self).spec_center_x())) as i32,
                max_x: (old(self).max_x + (x - old(self).spec_center_x())) as i32,
                ..*old(self)
            }),
    {
        let delta = x - self.center_x();
        self.min_x = self.min_x + delta;
        self.max_x = self.max_x + delta;
    }

    /// Move vertically so that the center lies at `y`.
    pub fn move_to_y(&mut self, y: i32)
        requires
            fits_i32(old(self).max_y - old(self).min_y),
            fits_i32(y - old(self).spec_center_y()),
            fits_i32(old(self).min_y + (y - old(self).spec_center_y())),
            fits_i32(old(self).max_y + (y - old(self).spec_center_y())),
        ensures
            *final(self) == (UiRect {
                min_y: (old(self).min_y + (y - old(self).spec_center_y())) as i32,
                max_y: (old(self).max_y + (y - old(self).spec_center_y())) as i32,
                ..*old(self)
            }),
    {
        let delta = y - self.center_y();
        self.min_y = self.min_y + delta;
        self.max_y = self.max_y + delta;
    }

    /// Change the width to `new_width`, growing or shrinking about the middle.
    pub fn resize_w(&mut self, new_width: i32)
        requires
            fits_i32(old(self).max_x - old(self).min_x),
            fits_i32(new_width - (old(self).max_x - old(self).min_x)),
            new_width - (old(self).max_x - old(self).min_x) != i32::MIN,
            fits_i32(old(self).min_x + spec_half(old(self).max_x - old(self).min_x - new_width)),
            fits_i32(old(self).max_x - spec_half_ceil(old(self).max_x - old(self).min_x - new_width)),
        ensures
            *final(self) == spec_shrink_x(*old(self), old(self).max_x - old(self).min_x - new_width),
    {
        let delta = new_width - self.width();
        self.grow_x(delta);
    }

    /// Change the height to `new_height`, growing or shrinking about the middle.
    pub fn resize_h(&mut self, new_height: i32)
        requires
            fits_i32(old(self).max_y - old(self).min_y),
            fits_i32(new_height - (old(self).max_y - old(self).min_y)),
            new_height - (old(self).max_y - old(self).min_y) != i32::MIN,
            fits_i32(old(self).min_y + spec_half(old(self).max_y - old(self).min_y - new_height)),
            fits_i32(old(self).max_y - spec_half_ceil(old(self).max_y - old(self).min_y - new_height)),
        ensures
            *final(self) == spec_shrink_y(*old(self), old(self).max_y - old(self).min_y - new_height),
    {
        let delta = new_height - self.height();
        self.grow_y(delta);
    }

    /// The intersection of two rects, or `None` when they do not touch.
    ///
    /// If other contains self, then self is returned.
    pub fn intersection(self, other: UiRect) -> (r: Option<UiRect>)
        ensures
            r == spec_intersection(self, other),
    {
        if other.max_x < self.min_x || other.max_y < self.min_y || self.max_x < other.min_x
            || self.max_y < other.min_y {
            return None;
        }
        let mut s = self;
        s.min_x = if s.min_x >= other.min_x { s.min_x } else { other.min_x };
        s.min_y = if s.min_y >= other.min_y { s.min_y } else { other.min_y };
        s.max_x = if s.max_x <= other.max_x { s.max_x } else { other.max_x };
        s.max_y = if s.max_y <= other.max_y { s.max_y } else { other.max_y };
        Some(s)
    }
}

impl Default for UiRect {
    fn default() -> (r: Self)
        ensures
            r == rect(0, 0, 0, 0),
    {
        UiRect { min_x: 0, min_y: 0, max_x: 0, max_y: 0 }
    }
}

/// Half of `n` rounded away from zero stays within `n`'s bounds.
pub proof fn lemma_half_ceil_bounds(n: int)
    ensures
        n >= 0 ==> 0 <= spec_half_ceil(n) <= n,
        n < 0 ==> n <= spec_half_ceil(n) <= 0,
        n >= 0 ==> 0 <= spec_half(n) <= n,
        n < 0 ==> n <= spec_half(n) <= 0,
        spec_half(n) + spec_half_ceil(n) == n,
{
}

/// `inner` lies within `outer`, edges included.
pub open spec fn rect_within(inner: UiRect, outer: UiRect) -> bool {
    outer.min_x <= inner.min_x && outer.min_y <= inner.min_y && inner.max_x <= outer.max_x
        && inner.max_y <= outer.max_y
}

/// The intersection of two touching rects, as [`UiRect::intersection`] computes it.
pub open spec fn spec_intersection(a: UiRect, b: UiRect) -> Option<UiRect> {
    if b.max_x < a.min_x || b.max_y < a.min_y || a.max_x < b.min_x || a.max_y < b.min_y {
        None
    } else {
        Some(
            rect(
                max_int(a.min_x as int, b.min_x as int),
                max_int(a.min_y as int, b.min_y as int),
                min_int(a.max_x as int, b.max_x as int),
                min_int(a.max_y as int, b.max_y as int),
            ),
        )
    }
}

/// If `other` contains a well-formed `r`, their intersection is `r` itself;
/// an intersection always lies within both rects when they are well formed.
pub proof fn lemma_intersection_within(r: UiRect, other: UiRect)
    requires
        r.min_x <= r.max_x && r.min_y <= r.max_y,
        other.min_x <= other.max_x && other.min_y <= other.max_y,
    ensures
        rect_within(r, other) ==> spec_intersection(r, other) == Some(r),
        spec_intersection(r, other) matches Some(i) ==> rect_within(i, r) && rect_within(i, other),
{
}

/// Two rects have an intersection exactly when they overlap on both axes,
/// edges included; a point lies in the intersection exactly when it lies in
/// both rects.
pub proof fn lemma_intersection_is_common_part(a: UiRect, b: UiRect, x: int, y: int)
    ensures
        (spec_intersection(a, b) is Some) <==> (a.min_x <= b.max_x && b.min_x <= a.max_x
            && a.min_y <= b.max_y && b.min_y <= a.max_y),
        spec_intersection(a, b) matches Some(i) ==> (i.spec_contains(x, y) <==> (a.spec_contains(
            x,
            y,
        ) && b.spec_contains(x, y))),
{
}

/// The rect grown over another covers both.
pub proof fn lemma_grow_over_covers(a: UiRect, b: UiRect)
    ensures
        rect_within(a, spec_grow_over(a, b)),
        rect_within(b, spec_grow_over(a, b)),
{
}

/// Resizing to a width that is not negative gives the rect that width, and
/// keeps its center where it was, up to the half unit that an odd change of
/// width cannot split evenly.
pub proof fn lemma_resize_sets_width(r: UiRect, w: int)
    requires
        w >= 0,
        r.min_x <= r.max_x,
        fits_i32(r.min_x + spec_half((r.max_x - r.min_x) - w)),
        fits_i32(r.max_x - spec_half_ceil((r.max_x - r.min_x) - w)),
    ensures
        ({
            let s = spec_shrink_x(r, (r.max_x - r.min_x) - w);
            &&& s.max_x - s.min_x == w
            &&& s.min_y == r.min_y && s.max_y == r.max_y
            &&& -1 <= (s.min_x + s.max_x) - (r.min_x + r.max_x) <= 1
        }),
{
    lemma_half_ceil_bounds((r.max_x - r.min_x) - w);
}

/// Moving a rect puts its center at the target and keeps its width.
pub proof fn lemma_move_to_centers(r: UiRect, x: int)
    requires
        fits_i32(r.min_x + (x - r.spec_center_x())),
        fits_i32(r.max_x + (x - r.spec_center_x())),
    ensures
        ({
            let d = x - r.spec_center_x();
            let m = UiRect { min_x: (r.min_x + d) as i32, max_x: (r.max_x + d) as i32, ..r };
            &&& m.spec_center_x() == x
            &&& m.max_x - m.min_x == r.max_x - r.min_x
        }),
{
}

} // verus!
