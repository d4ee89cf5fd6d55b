//! Widget identities and the hover/active/drag/scroll/context-menu state
//! that widgets request during a frame and that is applied between frames.

use vstd::prelude::*;

verus! {

/// Sentinel index: no widget.
pub const SENTINEL_INDEX: u32 = 0xFFFF_FFFF;

/// The identity of a widget: its parent, its index among its siblings, a
/// unique id and its depth in the tree.
#[derive(Debug, Clone, Copy, PartialEq, Eq, Structural, Hash, PartialOrd, Ord)]
pub struct UiId {
    pub parent: u32,
    pub index: u32,
    pub uid: u32,
    pub depth: u32,
}

/// The id of no widget.
pub open spec fn spec_sentinel() -> UiId {
    UiId { parent: SENTINEL_INDEX, index: SENTINEL_INDEX, uid: SENTINEL_INDEX, depth: 0 }
}

impl UiId {
    /// The id of no widget.
    pub fn sentinel() -> (r: UiId)
        ensures
            r == spec_sentinel(),
    {
        UiId { parent: SENTINEL_INDEX, index: SENTINEL_INDEX, uid: SENTINEL_INDEX, depth: 0 }
    }
}

impl Default for UiId {
    fn default() -> (r: Self)
        ensures
            r == spec_sentinel(),
    {
        UiId::sentinel()
    }
}

/// The kinds of interaction a widget can request, one bit each.
#[derive(Debug, Clone, Copy, PartialEq, Eq, Structural)]
pub enum InteractionFlag {
    Hovered,
    Active,
    Dragged,
    ContextMenu,
    Scrolling,
}

/// The bit of a flag.
pub open spec fn flag_bit(flag: InteractionFlag) -> u8 {
    match flag {
        InteractionFlag::Hovered => 1,
        InteractionFlag::Active => 2,
        InteractionFlag::Dragged => 4,
        InteractionFlag::ContextMenu => 8,
        InteractionFlag::Scrolling => 16,
    }
}

impl InteractionFlag {
    /// The bit of this flag.
    pub fn bit(self) -> (r: u8)
        ensures
            r == flag_bit(self),
    {
        match self {
            InteractionFlag::Hovered => 1,
            InteractionFlag::Active => 2,
            InteractionFlag::Dragged => 4,
            InteractionFlag::ContextMenu => 8,
            InteractionFlag::Scrolling => 16,
        }
    }
}

/// The words that name the flags set in `flags`, in the order Hovered,
/// Active, Dragged, ContextMenu, Scrolling, each with whether a space goes
/// before it. A space separates a word from an earlier Hovered, Active or
/// Dragged; ContextMenu does not count as an earlier word.
pub open spec fn spec_flag_words(flags: u8) -> Seq<(InteractionFlag, bool)> {
    let h = flags & 1u8 != 0;
    let a = flags & 2u8 != 0;
    let d = flags & 4u8 != 0;
    let c = flags & 8u8 != 0;
    let s = flags & 16u8 != 0;
    let w1 = if h {
        seq![(InteractionFlag::Hovered, false)]
    } else {
        Seq::empty()
    };
    let w2 = if a {
        w1.push((InteractionFlag::Active, h))
    } else {
        w1
    };
    let w3 = if d {
        w2.push((InteractionFlag::Dragged, h || a))
    } else {
        w2
    };
    let w4 = if c {
        w3.push((InteractionFlag::ContextMenu, h || a || d))
    } else {
        w3
    };
    if s {
        w4.push((InteractionFlag::Scrolling, h || a || d))
    } else {
        w4
    }
}

/// The words that describe `flags` when they are shown, each with whether a
/// space goes before it.
pub fn flag_words(flags: u8) -> (r: Vec<(InteractionFlag, bool)>)
    ensures
        r@ == spec_flag_words(flags),
{
    let mut words: Vec<(InteractionFlag, bool)> = Vec::new();
    let mut has = false;
    if flags & 1u8 != 0 {
        words.push((InteractionFlag::Hovered, has));
        has = true;
    }
    if flags & 2u8 != 0 {
        words.push((InteractionFlag::Active, has));
        has = true;
    }
    if flags & 4u8 != 0 {
        words.push((InteractionFlag::Dragged, has));
        has = true;
    }
    if flags & 8u8 != 0 {
        words.push((InteractionFlag::ContextMenu, has));
    }
    if flags & 16u8 != 0 {
        words.push((InteractionFlag::Scrolling, has));
    }
    assert(words@ =~= spec_flag_words(flags));
    words
}

/// The interactions a widget asked to gain or to lose this frame.
#[derive(Debug, Clone, Copy, PartialEq, Eq, Structural)]
pub struct NextUiIdSet {
    pub id: UiId,
    pub layer: u16,
    pub added_flags: u8,
    pub removed_flags: u8,
}

/// The set asks to gain `flag`.
pub open spec fn has_added(s: NextUiIdSet, flag: InteractionFlag) -> bool {
    s.added_flags & flag_bit(flag) != 0
}

/// The set asks to lose `flag`.
pub open spec fn has_removed(s: NextUiIdSet, flag: InteractionFlag) -> bool {
    s.removed_flags & flag_bit(flag) != 0
}

impl Default for NextUiIdSet {
    fn default() -> (r: Self)
        ensures
            r == (NextUiIdSet { id: spec_sentinel(), layer: 0, added_flags: 0, removed_flags: 0 }),
    {
        NextUiIdSet { id: UiId::sentinel(), layer: 0, added_flags: 0, removed_flags: 0 }
    }
}

impl NextUiIdSet {
    /// Ask to gain `flag`, cancelling a request to lose it.
    pub fn add_flag(&mut self, flag: InteractionFlag)
        ensures
            final(self).added_flags == old(self).added_flags | flag_bit(flag),
            final(self).removed_flags == old(self).removed_flags & !flag_bit(flag),
            final(self).id == old(self).id,
            final(self).layer == old(self).layer,
    {
        let b = flag.bit();
        self.added_flags = self.added_flags | b;
        self.removed_flags = self.removed_flags & !b;
    }

    /// Ask to lose `flag`, cancelling a request to gain it.
    pub fn remove_flag(&mut self, flag: InteractionFlag)
        ensures
            final(self).added_flags == old(self).added_flags & !flag_bit(flag),
            final(self).removed_flags == old(self).removed_flags | flag_bit(flag),
            final(self).id == old(self).id,
            final(self).layer == old(self).layer,
    {
        let b = flag.bit();
        self.added_flags = self.added_flags & !b;
        self.removed_flags = self.removed_flags | b;
    }

    pub fn has_added_flag(&self, flag: InteractionFlag) -> (r: bool)
        ensures
            r == has_added(*self, flag),
    {
        (self.added_flags & flag.bit()) != 0
    }

    pub fn has_removed_flag(&self, flag: InteractionFlag) -> (r: bool)
        ensures
            r == has_removed(*self, flag),
    {
        (self.removed_flags & flag.bit()) != 0
    }
}

proof fn lemma_bits(a: u8, b: u8, c: u8)
    by (bit_vector)
    requires
        b == 1 || b == 2 || b == 4 || b == 8 || b == 16,
        c == 1 || c == 2 || c == 4 || c == 8 || c == 16,
    ensures
        (a | b) & b != 0,
        (a & !b) & b == 0,
        b != c ==> ((a | b) & c != 0) == (a & c != 0),
        b != c ==> ((a & !b) & c != 0) == (a & c != 0),
{
}

/// Gaining a flag marks it gained and not lost and leaves every other flag
/// as it was; losing a flag is the mirror image.
pub proof fn lemma_flags_independent(s: NextUiIdSet, flag: InteractionFlag, other: InteractionFlag)
    ensures
        ({
            let t = NextUiIdSet {
                added_flags: s.added_flags | flag_bit(flag),
                removed_flags: s.removed_flags & !flag_bit(flag),
                ..s
            };
            &&& has_added(t, flag)
            &&& !has_removed(t, flag)
            &&& other != flag ==> has_added(t, other) == has_added(s, other)
                && has_removed(t, other) == has_removed(s, other)
        }),
        ({
            let t = NextUiIdSet {
                added_flags: s.added_flags & !flag_bit(flag),
                removed_flags: s.removed_flags | flag_bit(flag),
                ..s
            };
            &&& !has_added(t, flag)
            &&& has_removed(t, flag)
            &&& other != flag ==> has_added(t, other) == has_added(s, other)
                && has_removed(t, other) == has_removed(s, other)
        }),
{
    lemma_bits(s.added_flags, flag_bit(flag), flag_bit(other));
    lemma_bits(s.removed_flags, flag_bit(flag), flag_bit(other));
}

/// The interaction requests of a frame, in the order widgets made them.
pub struct NextUiIds(pub Vec<NextUiIdSet>);

/// The requests after `push(id, layer)`, before the caller edits the entry.
pub open spec fn spec_push(sets: Seq<NextUiIdSet>, id: UiId, layer: u16) -> Seq<NextUiIdSet> {
    if sets.len() > 0 && sets.last().id == id {
        sets
    } else {
        sets.push(NextUiIdSet { layer, id, added_flags: 0, removed_flags: 0 })
    }
}

impl NextUiIds {
    /// The entry of `id`: the last entry when it belongs to `id`, else a new
    /// empty entry at `layer`.
    pub fn push(&mut self, id: UiId, layer: u16) -> (r: &mut NextUiIdSet)
        ensures
            *r == spec_push(old(self).0@, id, layer).last(),
            final(self).0@ == spec_push(old(self).0@, id, layer).update(
                spec_push(old(self).0@, id, layer).len() - 1,
                *final(r),
            ),
    {
        let n = self.0.len();
        if n == 0 || self.0[n - 1].id != id {
            self.0.push(NextUiIdSet { layer, id, added_flags: 0, removed_flags: 0 });
        }
        let last = self.0.len() - 1;
        &mut self.0[last]
    }
}

/// `x` inserted into `sorted` after every element whose layer is not above
/// its own.
pub open spec fn insert_by_layer(sorted: Seq<NextUiIdSet>, x: NextUiIdSet) -> Seq<NextUiIdSet>
    decreases sorted.len(),
{
    if sorted.len() == 0 {
        seq![x]
    } else if sorted.last().layer <= x.layer {
        sorted.push(x)
    } else {
        insert_by_layer(sorted.drop_last(), x).push(sorted.last())
    }
}

/// `s` sorted by layer; entries of equal layer keep their order.
pub open spec fn sort_by_layer(s: Seq<NextUiIdSet>) -> Seq<NextUiIdSet>
    decreases s.len(),
{
    if s.len() == 0 {
        s
    } else {
        insert_by_layer(sort_by_layer(s.drop_last()), s.last())
    }
}

/// Layers do not decrease along `s`.
pub open spec fn layers_sorted(s: Seq<NextUiIdSet>) -> bool {
    forall|i: int, j: int| 0 <= i <= j < s.len() ==> s[i].layer <= s[j].layer
}

/// Inserting behind a tail of higher layers is inserting into the prefix.
proof fn lemma_insert_behind_tail(sorted: Seq<NextUiIdSet>, x: NextUiIdSet, k: int)
    requires
        0 <= k <= sorted.len(),
        forall|j: int| k <= j < sorted.len() ==> sorted[j].layer > x.layer,
    ensures
        insert_by_layer(sorted, x) == insert_by_layer(sorted.subrange(0, k), x) + sorted.subrange(
            k,
            sorted.len() as int,
        ),
    decreases sorted.len() - k,
{
    if k < sorted.len() {
        let d = sorted.drop_last();
        lemma_insert_behind_tail(d, x, k);
        assert(d.subrange(0, k) =~= sorted.subrange(0, k));
        assert(sorted.subrange(k, sorted.len() as int) =~= d.subrange(k, d.len() as int).push(
            sorted.last(),
        ));
        assert(insert_by_layer(sorted, x) == insert_by_layer(d, x).push(sorted.last()));
        assert((insert_by_layer(d.subrange(0, k), x) + d.subrange(k, d.len() as int)).push(
            sorted.last(),
        ) =~= insert_by_layer(sorted.subrange(0, k), x) + sorted.subrange(k, sorted.len() as int));
    } else {
        assert(sorted.subrange(0, k) =~= sorted);
        assert(sorted.subrange(k, sorted.len() as int) =~= Seq::<NextUiIdSet>::empty());
        assert(insert_by_layer(sorted, x) + Seq::<NextUiIdSet>::empty() =~= insert_by_layer(
            sorted,
            x,
        ));
    }
}

/// Insertion keeps the layers sorted and adds exactly `x`.
proof fn lemma_insert_sorted(sorted: Seq<NextUiIdSet>, x: NextUiIdSet)
    requires
        layers_sorted(sorted),
    ensures
        layers_sorted(insert_by_layer(sorted, x)),
        insert_by_layer(sorted, x).to_multiset() == sorted.to_multiset().insert(x),
        insert_by_layer(sorted, x).len() == sorted.len() + 1,
        forall|i: int|
            0 <= i < insert_by_layer(sorted, x).len() ==> #[trigger] insert_by_layer(sorted, x)[i]
                == x || sorted.contains(insert_by_layer(sorted, x)[i]),
    decreases sorted.len(),
{
    broadcast use vstd::seq_lib::group_seq_properties;

    if sorted.len() == 0 {
        assert(seq![x] =~= Seq::<NextUiIdSet>::empty().push(x));
    } else if sorted.last().layer <= x.layer {
    } else {
        let d = sorted.drop_last();
        lemma_insert_sorted(d, x);
        let r = insert_by_layer(d, x);
        assert forall|i: int| 0 <= i < r.len() implies #[trigger] r[i].layer <= sorted.last().layer by {
            if r[i] != x {
                assert(d.contains(r[i]));
                let j = choose|j: int| 0 <= j < d.len() && d[j] == r[i];
                assert(sorted[j] == d[j]);
            }
        }
        assert forall|i: int| 0 <= i < r.push(sorted.last()).len() implies #[trigger] r.push(
            sorted.last(),
        )[i] == x || sorted.contains(r.push(sorted.last())[i]) by {
            if i < r.len() {
                if r[i] != x {
                    let j = choose|j: int| 0 <= j < d.len() && d[j] == r[i];
                    assert(sorted[j] == d[j]);
                }
            } else {
                assert(sorted[sorted.len() - 1] == sorted.last());
            }
        }
        assert(sorted =~= d.push(sorted.last()));
    }
}

/// Sorting yields layers in order and keeps every entry exactly as often.
pub proof fn lemma_sort_by_layer(s: Seq<NextUiIdSet>)
    ensures
        layers_sorted(sort_by_layer(s)),
        sort_by_layer(s).to_multiset() == s.to_multiset(),
        sort_by_layer(s).len() == s.len(),
    decreases s.len(),
{
    broadcast use vstd::seq_lib::group_seq_properties;

    if s.len() > 0 {
        lemma_sort_by_layer(s.drop_last());
        lemma_insert_sorted(sort_by_layer(s.drop_last()), s.last());
        assert(s =~= s.drop_last().push(s.last()));
    }
}

/// Sorts `v` by layer, keeping entries of equal layer in order.
fn sort_sets_by_layer(v: Vec<NextUiIdSet>) -> (r: Vec<NextUiIdSet>)
    ensures
        r@ == sort_by_layer(v@),
{
    let mut sorted: Vec<NextUiIdSet> = Vec::new();
    let mut i: usize = 0;
    while i < v.len()
        invariant
            i <= v.len(),
            sorted@ == sort_by_layer(v@.subrange(0, i as int)),
        decreases v.len() - i,
    {
        let x = v[i];
        proof {
            lemma_sort_by_layer(v@.subrange(0, i as int));
        }
        let mut pos = sorted.len();
        while pos > 0 && sorted[pos - 1].layer > x.layer
            invariant
                pos <= sorted.len(),
                forall|j: int| pos <= j < sorted.len() ==> sorted[j].layer > x.layer,
            decreases pos,
        {
            pos -= 1;
        }
        proof {
            lemma_insert_behind_tail(sorted@, x, pos as int);
            let pre = sorted@.subrange(0, pos as int);
            if pos > 0 {
                assert(pre.last().layer <= x.layer);
            }
            assert(insert_by_layer(pre, x) =~= pre.push(x));
            assert(v@.subrange(0, i + 1).drop_last() =~= v@.subrange(0, i as int));
            assert(v@.subrange(0, i + 1).last() == x);
        }
        let ghost before = sorted@;
        sorted.insert(pos, x);
        assert(sorted@ =~= before.subrange(0, pos as int).push(x) + before.subrange(
            pos as int,
            before.len() as int,
        ));
        i += 1;
    }
    assert(v@.subrange(0, v.len() as int) =~= v@);
    sorted
}

/// The state of interactions between frames.
pub struct UiIdsState {
    pub hovered: Set<UiId>,
    pub top_hovered: UiId,
    pub active: UiId,
    pub dragged: UiId,
    pub context_menu: UiId,
    pub scrolling: UiId,
}

/// Which widgets are hovered, active, dragged, scrolling or own the context
/// menu.
#[derive(Debug, Clone)]
pub struct UiIds {
    hovered: Vec<UiId>,
    /// Topmost hovered widget
    top_hovered: UiId,
    active: UiId,
    dragged: UiId,
    context_menu: UiId,
    scrolling: UiId,
}

impl View for UiIds {
    type V = UiIdsState;

    closed spec fn view(&self) -> UiIdsState {
        UiIdsState {
            hovered: self.hovered@.to_set(),
            top_hovered: self.top_hovered,
            active: self.active,
            dragged: self.dragged,
            context_menu: self.context_menu,
            scrolling: self.scrolling,
        }
    }
}

/// The state after one widget's requests.
pub open spec fn spec_apply_set(st: UiIdsState, set: NextUiIdSet) -> UiIdsState {
    let id = set.id;
    let sentinel = spec_sentinel();
    let hovered1 = if has_added(set, InteractionFlag::Hovered) {
        st.hovered.insert(id)
    } else {
        st.hovered
    };
    let top1 = if has_added(set, InteractionFlag::Hovered) {
        id
    } else {
        st.top_hovered
    };
    let active1 = if has_added(set, InteractionFlag::Active) {
        id
    } else {
        st.active
    };
    let scrolling1 = if has_added(set, InteractionFlag::Scrolling) {
        id
    } else {
        st.scrolling
    };
    let active2 = if has_added(set, InteractionFlag::Dragged) {
        id
    } else {
        active1
    };
    let dragged2 = if has_added(set, InteractionFlag::Dragged) {
        id
    } else {
        st.dragged
    };
    let context2 = if has_added(set, InteractionFlag::ContextMenu) {
        id
    } else {
        st.context_menu
    };
    // a released drag also releases the widget unless it asked to be active
    let drag_released = dragged2 == id && has_removed(set, InteractionFlag::Dragged);
    let dragged3 = if drag_released {
        sentinel
    } else {
        dragged2
    };
    let loses_active = has_removed(set, InteractionFlag::Active) || (drag_released && !has_added(
        set,
        InteractionFlag::Active,
    ));
    let hovered4 = if has_removed(set, InteractionFlag::Hovered) {
        hovered1.remove(id)
    } else {
        hovered1
    };
    let top4 = if has_removed(set, InteractionFlag::Hovered) && top1 == id {
        sentinel
    } else {
        top1
    };
    let active5 = if active2 == id && loses_active {
        sentinel
    } else {
        active2
    };
    let scrolling6 = if scrolling1 == id && has_removed(set, InteractionFlag::Scrolling) {
        sentinel
    } else {
        scrolling1
    };
    let context7 = if has_removed(set, InteractionFlag::ContextMenu) {
        sentinel
    } else {
        context2
    };
    UiIdsState {
        hovered: hovered4,
        top_hovered: top4,
        active: active5,
        dragged: dragged3,
        context_menu: context7,
        scrolling: scrolling6,
    }
}

/// The state after the requests of `sets`, in order.
pub open spec fn spec_apply_sets(st: UiIdsState, sets: Seq<NextUiIdSet>) -> UiIdsState
    decreases sets.len(),
{
    if sets.len() == 0 {
        st
    } else {
        spec_apply_set(spec_apply_sets(st, sets.drop_last()), sets.last())
    }
}

impl Default for UiIds {
    fn default() -> (r: Self)
        ensures
            r@.hovered == Set::<UiId>::empty(),
            r@.top_hovered == spec_sentinel(),
            r@.active == spec_sentinel(),
            r@.dragged == spec_sentinel(),
            r@.context_menu == spec_sentinel(),
            r@.scrolling == spec_sentinel(),
    {
        let r = UiIds {
            hovered: Vec::new(),
            top_hovered: UiId::sentinel(),
            active: UiId::sentinel(),
            dragged: UiId::sentinel(),
            context_menu: UiId::sentinel(),
            scrolling: UiId::sentinel(),
        };
        assert(r.hovered@.to_set() =~= Set::<UiId>::empty());
        r
    }
}

impl UiIds {
    fn insert_hovered(&mut self, id: UiId)
        ensures
            final(self)@ == (UiIdsState { hovered: old(self)@.hovered.insert(id), ..old(self)@ }),
    {
        let mut i: usize = 0;
        let n = self.hovered.len();
        while i < n
            invariant
                n == self.hovered.len(),
                i <= n,
                forall|j: int| 0 <= j < i ==> self.hovered@[j] != id,
            decreases n - i,
        {
            if self.hovered[i] == id {
                assert(self.hovered@.to_set().contains(id)) by {
                    assert(self.hovered@.contains(id));
                }
                assert(self@.hovered.insert(id) =~= self@.hovered);
                return ;
            }
            i += 1;
        }
        self.hovered.push(id);
        proof {
            broadcast use vstd::seq_lib::group_seq_properties;

            assert(self.hovered@.to_set() =~= old(self).hovered@.to_set().insert(id));
        }
    }

    fn remove_hovered(&mut self, id: UiId)
        ensures
            final(self)@ == (UiIdsState { hovered: old(self)@.hovered.remove(id), ..old(self)@ }),
    {
        let mut kept: Vec<UiId> = Vec::new();
        let mut i: usize = 0;
        let n = self.hovered.len();
        while i < n
            invariant
                n == self.hovered.len(),
                i <= n,
                kept@.to_set() == self.hovered@.subrange(0, i as int).to_set().remove(id),
            decreases n - i,
        {
            let h = self.hovered[i];
            let ghost kept_before = kept@;
            let ghost prefix = self.hovered@.subrange(0, i as int);
            assert(self.hovered@.subrange(0, i + 1) =~= prefix.push(h));
            if h != id {
                kept.push(h);
            }
            proof {
                prefix.lemma_push_to_set_commute(h);
                if h != id {
                    kept_before.lemma_push_to_set_commute(h);
                }
                assert(kept@.to_set() =~= prefix.push(h).to_set().remove(id));
            }
            i += 1;
        }
        assert(self.hovered@.subrange(0, n as int) =~= self.hovered@);
        self.hovered = kept;
    }

    /// Apply the requests of one widget.
    fn apply_set(&mut self, set: NextUiIdSet)
        ensures
            final(self)@ == spec_apply_set(old(self)@, set),
    {
        let mut idset = set;
        if idset.has_added_flag(InteractionFlag::Hovered) {
            self.insert_hovered(idset.id);
            self.top_hovered = idset.id;
        }
        if idset.has_added_flag(InteractionFlag::Active) {
            self.active = idset.id;
        }
        if idset.has_added_flag(InteractionFlag::Scrolling) {
            self.scrolling = idset.id;
        }
        if idset.has_added_flag(InteractionFlag::Dragged) {
            self.active = idset.id;
            self.dragged = idset.id;
        }
        if idset.has_added_flag(InteractionFlag::ContextMenu) {
            self.context_menu = idset.id;
        }
        if self.dragged == idset.id && idset.has_removed_flag(InteractionFlag::Dragged) {
            self.dragged = UiId::sentinel();
            if !idset.has_added_flag(InteractionFlag::Active) {
                idset.remove_flag(InteractionFlag::Active);
                proof {
                    lemma_flags_independent(set, InteractionFlag::Active, InteractionFlag::Hovered);
                    lemma_flags_independent(set, InteractionFlag::Active, InteractionFlag::Scrolling);
                    lemma_flags_independent(set, InteractionFlag::Active, InteractionFlag::ContextMenu);
                }
            }
        }
        if idset.has_removed_flag(InteractionFlag::Hovered) {
            self.remove_hovered(idset.id);
            if self.top_hovered == idset.id {
                self.top_hovered = UiId::sentinel();
            }
        }
        if self.active == idset.id && idset.has_removed_flag(InteractionFlag::Active) {
            self.active = UiId::sentinel();
        }
        if self.scrolling == idset.id && idset.has_removed_flag(InteractionFlag::Scrolling) {
            self.scrolling = UiId::sentinel();
        }
        if idset.has_removed_flag(InteractionFlag::ContextMenu) {
            self.context_menu = UiId::sentinel();
        }
    }

    /// The dragged widget, or the sentinel.
    pub fn dragged(&self) -> (r: UiId)
        ensures
            r == self@.dragged,
    {
        self.dragged
    }

    #[inline]
    pub fn is_anything_dragged(&self) -> (r: bool)
        ensures
            r == (self@.dragged != spec_sentinel()),
    {
        self.dragged != UiId::sentinel()
    }

    #[inline]
    pub fn is_scrolling(&self, id: UiId) -> (r: bool)
        ensures
            r == (self@.scrolling == id),
    {
        self.scrolling == id
    }

    #[inline]
    pub fn is_anything_scrolling(&self) -> (r: bool)
        ensures
            r == (self@.scrolling != spec_sentinel()),
    {
        self.scrolling != UiId::sentinel()
    }

    #[inline]
    pub fn is_context_menu_open(&self) -> (r: bool)
        ensures
            r == (self@.context_menu != spec_sentinel()),
    {
        self.context_menu != UiId::sentinel()
    }

    #[inline]
    pub fn is_active(&self, id: UiId) -> (r: bool)
        ensures
            r == (self@.active == id),
    {
        self.active == id
    }

    #[inline]
    pub fn is_anything_active(&self) -> (r: bool)
        ensures
            r == (self@.active != spec_sentinel()),
    {
        self.active != UiId::sentinel()
    }

    pub fn is_hovered(&self, id: UiId) -> (r: bool)
        ensures
            r == self@.hovered.contains(id),
    {
        let mut i: usize = 0;
        while i < self.hovered.len()
            invariant
                i <= self.hovered.len(),
                forall|j: int| 0 <= j < i ==> self.hovered@[j] != id,
            decreases self.hovered.len() - i,
        {
            if self.hovered[i] == id {
                assert(self.hovered@.contains(id));
                return true;
            }
            i += 1;
        }
        false
    }

    #[inline]
    pub fn is_top_hovered(&self, id: UiId) -> (r: bool)
        ensures
            r == (self@.top_hovered == id),
    {
        self.top_hovered == id
    }

    #[inline]
    pub fn has_context_menu(&self, id: UiId) -> (r: bool)
        ensures
            r == (self@.context_menu == id),
    {
        self.context_menu == id
    }
}

/// Apply the interaction requests of a frame, from the backmost layer to the
/// frontmost, and clear them.
pub fn update_ids(lhs: &mut UiIds, rhs: &mut NextUiIds)
    ensures
        final(lhs)@ == spec_apply_sets(old(lhs)@, sort_by_layer(old(rhs).0@)),
        final(rhs).0@ == Seq::<NextUiIdSet>::empty(),
{
    let mut ids: Vec<NextUiIdSet> = Vec::new();
    std::mem::swap(&mut ids, &mut rhs.0);
    let sorted = sort_sets_by_layer(ids);
    let ghost start = lhs@;
    let mut i: usize = 0;
    while i < sorted.len()
        invariant
            i <= sorted.len(),
            lhs@ == spec_apply_sets(start, sorted@.subrange(0, i as int)),
        decreases sorted.len() - i,
    {
        assert(sorted@.subrange(0, i + 1).drop_last() =~= sorted@.subrange(0, i as int));
        lhs.apply_set(sorted[i]);
        i += 1;
    }
    assert(sorted@.subrange(0, sorted.len() as int) =~= sorted@);
}

/// The topmost hovered widget is always one of the hovered widgets, or no
/// widget at all; applying requests keeps it so.
pub proof fn lemma_top_hovered_is_hovered(st: UiIdsState, sets: Seq<NextUiIdSet>)
    requires
        st.top_hovered == spec_sentinel() || st.hovered.contains(st.top_hovered),
    ensures
        ({
            let r = spec_apply_sets(st, sets);
            r.top_hovered == spec_sentinel() || r.hovered.contains(r.top_hovered)
        }),
    decreases sets.len(),
{
    if sets.len() > 0 {
        lemma_top_hovered_is_hovered(st, sets.drop_last());
    }
}

} // verus!
