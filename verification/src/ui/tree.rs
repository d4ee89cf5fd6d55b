//! The widget tree of a frame: how widgets get their ids, and how the layout
//! cursor advances as widgets are placed.

use vstd::prelude::*;

use super::ids::{spec_sentinel, UiId, SENTINEL_INDEX};
use super::layout::LayoutDirection;
use super::rect::{fits_i32, UiRect};
use super::{be_bytes, fnv_1a, le_bytes, native_bytes_of_words, spec_fnv_1a, words_be, words_le};

verus! {

/// The ids of the widgets of a frame, and the stack of their ancestors.
pub struct UiTree {
    /// For each open level of the tree, the index of its latest widget
    /// (`SENTINEL_INDEX` before the first one).
    pub id_stack: Vec<u32>,
    /// The ids of the widgets of this frame, in the order they began.
    pub widget_ids: Vec<UiId>,
    /// Hash of the current tree root.
    pub root_hash: u32,
}

/// The parent of the next widget: the latest widget of the innermost open
/// level, or a root id carrying the root hash.
pub open spec fn spec_parent(id_stack: Seq<u32>, widget_ids: Seq<UiId>, root_hash: u32) -> UiId {
    if id_stack.len() > 0 && (id_stack.last() as int) < widget_ids.len() {
        widget_ids[id_stack.last() as int]
    } else {
        UiId { uid: root_hash, ..spec_sentinel() }
    }
}

/// The id of the current widget, or the sentinel.
pub open spec fn spec_current_id(id_stack: Seq<u32>, widget_ids: Seq<UiId>) -> UiId {
    if id_stack.len() > 0 && (id_stack.last() as int) < widget_ids.len() {
        widget_ids[id_stack.last() as int]
    } else {
        spec_sentinel()
    }
}

impl UiTree {
    pub fn new() -> (r: Self)
        ensures
            r.id_stack@ == Seq::<u32>::empty(),
            r.widget_ids@ == Seq::<UiId>::empty(),
            r.root_hash == 0,
    {
        UiTree { id_stack: Vec::new(), widget_ids: Vec::new(), root_hash: 0 }
    }

    /// Forget the widgets of the last frame.
    pub fn clear(&mut self)
        ensures
            final(self).id_stack@ == Seq::<u32>::empty(),
            final(self).widget_ids@ == Seq::<UiId>::empty(),
            final(self).root_hash == 0,
    {
        self.root_hash = 0;
        self.id_stack.clear();
        self.widget_ids.clear();
    }

    /// The parent of the next widget.
    fn parent(&self) -> (r: UiId)
        ensures
            r == spec_parent(self.id_stack@, self.widget_ids@, self.root_hash),
    {
        let n = self.id_stack.len();
        if n > 0 {
            let i = self.id_stack[n - 1] as usize;
            if i < self.widget_ids.len() {
                return self.widget_ids[i];
            }
        }
        let mut id = UiId::sentinel();
        id.uid = self.root_hash;
        id
    }

    /// The id of the current widget, or the sentinel.
    pub fn current_id(&self) -> (r: UiId)
        ensures
            r == spec_current_id(self.id_stack@, self.widget_ids@),
    {
        let n = self.id_stack.len();
        if n > 0 {
            let i = self.id_stack[n - 1] as usize;
            if i < self.widget_ids.len() {
                return self.widget_ids[i];
            }
        }
        UiId::sentinel()
    }

    /// Begin a new widget: its index is its position among this frame's
    /// widgets, its parent the latest widget of the enclosing level, and its
    /// uid the FNV-1a hash of the parent's uid and its index, as bytes in the
    /// machine's order.
    pub fn begin_widget(&mut self) -> (id: UiId)
        requires
            spec_parent(old(self).id_stack@, old(self).widget_ids@, old(self).root_hash).depth
                < u32::MAX,
        ensures
            ({
                let parent = spec_parent(old(self).id_stack@, old(self).widget_ids@, old(self).root_hash);
                &&& id.index == old(self).widget_ids@.len() as u32
                &&& id.parent == parent.index
                &&& id.depth == parent.depth + 1
                &&& (id.uid == spec_fnv_1a(le_bytes(parent.uid) + le_bytes(id.index))
                    || id.uid == spec_fnv_1a(be_bytes(parent.uid) + be_bytes(id.index)))
            }),
            final(self).widget_ids@ == old(self).widget_ids@.push(id),
            final(self).root_hash == old(self).root_hash,
            old(self).id_stack@.len() > 0 ==> final(self).id_stack@ == old(self).id_stack@.update(
                old(self).id_stack@.len() - 1,
                id.index,
            ),
            old(self).id_stack@.len() == 0 ==> final(self).id_stack@ == old(self).id_stack@,
    {
        let index = self.widget_ids.len() as u32;
        let parent = self.parent();
        let bytes = native_bytes_of_words(&vec![parent.uid, index]);
        proof {
            assert(words_le(seq![parent.uid, index]) =~= le_bytes(parent.uid) + le_bytes(index)) by {
                reveal_with_fuel(words_le, 3);
                assert(seq![parent.uid, index].drop_last() =~= seq![parent.uid]);
                assert(seq![parent.uid].drop_last() =~= Seq::<u32>::empty());
                assert(Seq::<u8>::empty() + le_bytes(parent.uid) =~= le_bytes(parent.uid));
            }
            assert(words_be(seq![parent.uid, index]) =~= be_bytes(parent.uid) + be_bytes(index)) by {
                reveal_with_fuel(words_be, 3);
                assert(seq![parent.uid, index].drop_last() =~= seq![parent.uid]);
                assert(seq![parent.uid].drop_last() =~= Seq::<u32>::empty());
                assert(Seq::<u8>::empty() + be_bytes(parent.uid) =~= be_bytes(parent.uid));
            }
        }
        let hash = fnv_1a(bytes.as_slice());
        let id = UiId { parent: parent.index, index, uid: hash, depth: parent.depth + 1 };
        self.widget_ids.push(id);
        let n = self.id_stack.len();
        if n > 0 {
            self.id_stack.set(n - 1, id.index);
        }
        id
    }

    /// Open a level for the children of the current widget.
    pub fn push_child(&mut self)
        ensures
            final(self).id_stack@ == old(self).id_stack@.push(SENTINEL_INDEX),
            final(self).widget_ids@ == old(self).widget_ids@,
            final(self).root_hash == old(self).root_hash,
    {
        self.id_stack.push(SENTINEL_INDEX);
    }

    /// Close the innermost level.
    pub fn pop_child(&mut self)
        ensures
            old(self).id_stack@.len() > 0 ==> final(self).id_stack@ == old(self).id_stack@.drop_last(),
            old(self).id_stack@.len() == 0 ==> final(self).id_stack@ == old(self).id_stack@,
            final(self).widget_ids@ == old(self).widget_ids@,
            final(self).root_hash == old(self).root_hash,
    {
        self.id_stack.pop();
    }
}

/// Every widget's index is its position among the frame's widgets.
pub open spec fn indices_are_positions(widget_ids: Seq<UiId>) -> bool {
    forall|k: int| 0 <= k < widget_ids.len() ==> #[trigger] widget_ids[k].index == k
}

/// Widgets begun in a frame have distinct indices, and so distinct ids, as
/// long as there are fewer than 2^32 of them: beginning a widget keeps every
/// index equal to its position.
pub proof fn lemma_begin_widget_keeps_indices(widget_ids: Seq<UiId>, id: UiId)
    requires
        indices_are_positions(widget_ids),
        widget_ids.len() < u32::MAX,
        id.index == widget_ids.len() as u32,
    ensures
        indices_are_positions(widget_ids.push(id)),
        forall|k: int| 0 <= k < widget_ids.len() ==> #[trigger] widget_ids[k] != id,
{
    assert forall|k: int| 0 <= k < widget_ids.len() implies #[trigger] widget_ids[k] != id by {
        assert(widget_ids[k].index == k);
    }
    assert forall|k: int| 0 <= k < widget_ids.push(id).len() implies #[trigger] widget_ids.push(
        id,
    )[k].index == k by {
        if k < widget_ids.len() {
            assert(widget_ids.push(id)[k] == widget_ids[k]);
        }
    }
}

/// The bounds left for the next widget after `rect` is placed: the side of
/// the bounds that the layout advances from moves past `rect` and its padding.
pub open spec fn spec_advance_bounds(
    bounds: UiRect,
    dir: LayoutDirection,
    rect: UiRect,
    padding: Seq<i32>,
) -> UiRect {
    match dir {
        LayoutDirection::TopDown(_) => UiRect { min_y: (rect.max_y + padding[3]) as i32, ..bounds },
        LayoutDirection::LeftRight(_) => UiRect { min_x: (rect.max_x + padding[1]) as i32, ..bounds },
        LayoutDirection::BottomUp(_) => UiRect { max_y: (rect.min_y - padding[2]) as i32, ..bounds },
        LayoutDirection::RightLeft(_) => UiRect { max_x: (rect.min_x - padding[0]) as i32, ..bounds },
        LayoutDirection::Center => bounds,
    }
}

/// Advance the layout bounds past a placed `rect`, given the absolute padding
/// (left, right, top, bottom).
pub fn advance_bounds(bounds: UiRect, dir: LayoutDirection, rect: UiRect, padding: [i32; 4]) -> (r: UiRect)
    requires
        match dir {
            LayoutDirection::TopDown(_) => fits_i32(rect.max_y + padding@[3]),
            LayoutDirection::LeftRight(_) => fits_i32(rect.max_x + padding@[1]),
            LayoutDirection::BottomUp(_) => fits_i32(rect.min_y - padding@[2]),
            LayoutDirection::RightLeft(_) => fits_i32(rect.min_x - padding@[0]),
            LayoutDirection::Center => true,
        },
    ensures
        r == spec_advance_bounds(bounds, dir, rect, padding@),
{
    let mut b = bounds;
    match dir {
        LayoutDirection::TopDown(_) => {
            b.min_y = rect.max_y + padding[3];
        },
        LayoutDirection::LeftRight(_) => {
            b.min_x = rect.max_x + padding[1];
        },
        LayoutDirection::BottomUp(_) => {
            b.max_y = rect.min_y - padding[2];
        },
        LayoutDirection::RightLeft(_) => {
            b.max_x = rect.min_x - padding[0];
        },
        LayoutDirection::Center => {},
    }
    b
}

/// The width of each of `columns` grid columns in `bounds`.
pub open spec fn spec_column_width(bounds: UiRect, columns: int) -> int {
    let w = bounds.max_x - bounds.min_x;
    let q = if w >= 0 {
        w / columns
    } else {
        -((-w) / columns)
    };
    q + 1
}

/// The x extent of each grid column.
pub open spec fn spec_grid_columns(bounds: UiRect, columns: int) -> Seq<[i32; 2]> {
    let width = spec_column_width(bounds, columns);
    Seq::new(
        columns as nat,
        |i: int| [(bounds.min_x + i * width) as i32, (bounds.min_x + (i + 1) * width) as i32],
    )
}

/// Split `bounds` into `columns` columns of equal width (the width divided
/// rounding towards zero, plus one).
pub fn grid_columns(bounds: UiRect, columns: u32) -> (dims: Vec<[i32; 2]>)
    requires
        0 < columns <= i32::MAX,
        fits_i32(bounds.max_x - bounds.min_x),
        forall|i: int|
            0 <= i <= columns ==> #[trigger] fits_i32(i * spec_column_width(bounds, columns as int))
                && fits_i32(bounds.min_x + i * spec_column_width(bounds, columns as int)),
    ensures
        dims@.len() == columns,
        forall|i: int| 0 <= i < columns ==> #[trigger] dims@[i] == spec_grid_columns(bounds, columns as int)[i],
{
    let cols = columns as i32;
    let w = bounds.width();
    assert(fits_i32(1 * spec_column_width(bounds, columns as int)));
    let width = w / cols + 1;
    let mut dims: Vec<[i32; 2]> = Vec::new();
    let mut i: i32 = 0;
    while i < cols
        invariant
            0 <= i <= cols,
            cols == columns,
            width == spec_column_width(bounds, columns as int),
            forall|k: int|
                0 <= k <= columns ==> #[trigger] fits_i32(k * spec_column_width(bounds, columns as int))
                    && fits_i32(bounds.min_x + k * spec_column_width(bounds, columns as int)),
            dims@.len() == i,
            forall|k: int| 0 <= k < i ==> #[trigger] dims@[k] == spec_grid_columns(bounds, columns as int)[k],
        decreases cols - i,
    {
        assert(fits_i32(i * spec_column_width(bounds, columns as int)));
        assert(fits_i32((i + 1) * spec_column_width(bounds, columns as int)));
        assert(fits_i32(bounds.min_x + i * spec_column_width(bounds, columns as int)));
        assert(fits_i32(bounds.min_x + (i + 1) * spec_column_width(bounds, columns as int)));
        let lo = bounds.min_x + i * width;
        let hi = bounds.min_x + (i + 1) * width;
        dims.push([lo, hi]);
        i += 1;
    }
    dims
}

/// Shift every column after `index` right by `diff`, making room for a column
/// that grew wider than its share.
pub fn shift_columns_after(dims: &mut Vec<[i32; 2]>, index: usize, diff: i32)
    requires
        forall|k: int|
            #![trigger old(dims)@[k]]
            index < k < old(dims)@.len() ==> fits_i32(old(dims)@[k][0] + diff) && fits_i32(
                old(dims)@[k][1] + diff,
            ),
    ensures
        final(dims)@.len() == old(dims)@.len(),
        forall|k: int| 0 <= k <= index && k < old(dims)@.len() ==> #[trigger] final(dims)@[k] == old(dims)@[k],
        forall|k: int|
            index < k < old(dims)@.len() ==> #[trigger] final(dims)@[k] == [
                (old(dims)@[k][0] + diff) as i32,
                (old(dims)@[k][1] + diff) as i32,
            ],
{
    if index >= dims.len() {
        return ;
    }
    let mut k = index + 1;
    while k < dims.len()
        invariant
            index < k <= dims.len(),
            dims@.len() == old(dims)@.len(),
            forall|j: int|
                #![trigger old(dims)@[j]]
                index < j < old(dims)@.len() ==> fits_i32(old(dims)@[j][0] + diff) && fits_i32(
                    old(dims)@[j][1] + diff,
                ),
            forall|j: int|
                0 <= j < dims@.len() && (j <= index || k <= j) ==> #[trigger] dims@[j] == old(dims)@[j],
            forall|j: int|
                index < j < k ==> #[trigger] dims@[j] == [
                    (old(dims)@[j][0] + diff) as i32,
                    (old(dims)@[j][1] + diff) as i32,
                ],
        decreases dims.len() - k,
    {
        let d = dims[k];
        dims.set(k, [d[0] + diff, d[1] + diff]);
        k += 1;
    }
}

/// The columns after column `i` has laid out content `content_width` wide:
/// when the content is wider than the column and another column follows,
/// the later columns move right by the excess.
pub open spec fn spec_finish_column(dims: Seq<[i32; 2]>, i: int, cols: int, content_width: int) -> Seq<[i32; 2]> {
    let w = dims[i][1] - dims[i][0];
    if content_width > w && i + 1 < cols {
        Seq::new(
            dims.len(),
            |k: int|
                if k > i {
                    [(dims[k][0] + (content_width - w)) as i32, (dims[k][1] + (content_width - w)) as i32]
                } else {
                    dims[k]
                },
        )
    } else {
        dims
    }
}

/// Make room after column `i` of a grid of `cols` columns for content
/// `content_width` wide.
pub fn finish_column(dims: &mut Vec<[i32; 2]>, i: u32, cols: u32, content_width: i32)
    requires
        i < cols,
        (i as int) < old(dims)@.len(),
        fits_i32(old(dims)@[i as int][1] - old(dims)@[i as int][0]),
        fits_i32(content_width - (old(dims)@[i as int][1] - old(dims)@[i as int][0])),
        content_width > old(dims)@[i as int][1] - old(dims)@[i as int][0] ==> forall|k: int|
            #![trigger old(dims)@[k]]
            i < k < old(dims)@.len() ==> fits_i32(
                old(dims)@[k][0] + (content_width - (old(dims)@[i as int][1] - old(dims)@[i as int][0])),
            ) && fits_i32(
                old(dims)@[k][1] + (content_width - (old(dims)@[i as int][1] - old(dims)@[i as int][0])),
            ),
    ensures
        final(dims)@ == spec_finish_column(old(dims)@, i as int, cols as int, content_width as int),
{
    let idx = i as usize;
    let w = dims[idx][1] - dims[idx][0];
    if content_width > w && i + 1 < cols {
        let diff = content_width - w;
        shift_columns_after(dims, idx, diff);
        proof {
            assert(dims@ =~= spec_finish_column(old(dims)@, i as int, cols as int, content_width as int));
        }
    }
}

/// Content wider than column `i` pushes every later column right by the
/// excess, provided a column follows it in the grid; the columns up to `i`
/// stay where they are, and content that fits, or a last column, moves
/// nothing.
pub proof fn lemma_finish_column_makes_room(
    dims: Seq<[i32; 2]>,
    i: int,
    cols: int,
    content_width: int,
)
    requires
        0 <= i < cols,
        i < dims.len(),
        content_width > dims[i][1] - dims[i][0] ==> forall|k: int|
            #![trigger dims[k]]
            i < k < dims.len() ==> fits_i32(dims[k][0] + (content_width - (dims[i][1] - dims[i][0])))
                && fits_i32(dims[k][1] + (content_width - (dims[i][1] - dims[i][0]))),
    ensures
        ({
            let r = spec_finish_column(dims, i, cols, content_width);
            let excess = content_width - (dims[i][1] - dims[i][0]);
            &&& r.len() == dims.len()
            &&& forall|k: int| 0 <= k <= i ==> #[trigger] r[k] == dims[k]
            &&& (excess > 0 && i + 1 < cols) ==> forall|k: int|
                i < k < dims.len() ==> #[trigger] r[k][0] == dims[k][0] + excess && r[k][1]
                    == dims[k][1] + excess
            &&& (excess <= 0 || i + 1 == cols) ==> r == dims
        }),
{
}

} // verus!
