//! Back-to-front ordering of windows and the layer bands they draw into.

use vstd::prelude::*;

use super::CONTEXT_LAYER;

verus! {

/// The layer at which window bands stop growing.
pub open spec fn band_ceiling() -> int {
    CONTEXT_LAYER - 1
}

/// `min(base + height, CONTEXT_LAYER - 1)`, computed over the integers.
pub open spec fn spec_next_base(base: u16, height: u16) -> int {
    let sum = base + height;
    if sum < band_ceiling() {
        sum
    } else {
        band_ceiling()
    }
}

/// The first layer of the band that follows a window of `height` layers
/// starting at `base`.
///
/// Saturates below [`CONTEXT_LAYER`] rather than wrapping. This does not keep
/// windows below context menus: a window draws content starting at
/// `base + 2`, so a window whose band saturates at the top can still draw
/// over a context menu. What saturating does do is pack exhausted windows
/// together at the top instead of wrapping their bases back around to zero.
pub fn next_base(base: u16, height: u16) -> (r: u16)
    ensures
        r == spec_next_base(base, height),
{
    let sum = base.saturating_add(height);
    let ceiling: u16 = CONTEXT_LAYER - 1;
    if sum < ceiling {
        sum
    } else {
        ceiling
    }
}

/// `layer` lies in the band of `height` layers starting at `base`.
pub open spec fn spec_layer_in_band(layer: u16, base: u16, height: u16) -> bool {
    base <= layer && layer < spec_next_base(base, height)
}

/// Whether `layer` falls inside the band of `height` layers starting at `base`.
pub fn layer_in_band(layer: u16, base: u16, height: u16) -> (r: bool)
    ensures
        r == spec_layer_in_band(layer, base, height),
{
    base <= layer && layer < next_base(base, height)
}

/// Whether two string slices hold the same characters.
fn str_eq(a: &str, b: &str) -> (r: bool)
    ensures
        r == (a@ == b@),
{
    let x = a.to_owned();
    let y = b.to_owned();
    x == y
}

/// `i` is the first index of `name` in `names`.
pub open spec fn is_first_index(names: Seq<Seq<char>>, name: Seq<char>, i: int) -> bool {
    &&& 0 <= i < names.len()
    &&& names[i] == name
    &&& forall|j: int| 0 <= j < i ==> names[j] != name
}

/// The first index of `name` in `names`, if it occurs.
pub open spec fn first_index(names: Seq<Seq<char>>, name: Seq<char>) -> Option<int> {
    if exists|i: int| 0 <= i < names.len() && names[i] == name {
        Some(choose|i: int| is_first_index(names, name, i))
    } else {
        None
    }
}

/// Every name occurs at most once.
pub open spec fn names_unique(names: Seq<Seq<char>>) -> bool {
    forall|i: int, j: int| 0 <= i < names.len() && 0 <= j < names.len() && i != j ==> names[i] != names[j]
}

/// The order after looking up `name`: unchanged when it is known, else
/// `name` is appended at the front.
pub open spec fn spec_z_of_names(names: Seq<Seq<char>>, name: Seq<char>) -> Seq<Seq<char>> {
    match first_index(names, name) {
        Some(_) => names,
        None => names.push(name),
    }
}

/// The index of `name` after looking it up (before truncation to `u16`).
pub open spec fn spec_z_of_index(names: Seq<Seq<char>>, name: Seq<char>) -> int {
    match first_index(names, name) {
        Some(i) => i,
        None => names.len() as int,
    }
}

/// The pending request after a bring-to-front request for `name` at `z`:
/// kept only when no request is pending or the pending one lies behind.
pub open spec fn spec_raise(
    pending: Option<(u16, Seq<char>)>,
    z: u16,
    name: Seq<char>,
) -> Option<(u16, Seq<char>)> {
    match pending {
        Some((current, _)) if !(current < z) => pending,
        _ => Some((z, name)),
    }
}

/// The order after applying a pending request: the requested window, if it
/// is still open, is moved to the front (the end of the order).
pub open spec fn spec_apply_raise(
    names: Seq<Seq<char>>,
    pending: Option<(u16, Seq<char>)>,
) -> Seq<Seq<char>> {
    match pending {
        None => names,
        Some((_, name)) => match first_index(names, name) {
            None => names,
            Some(i) => names.remove(i).push(names[i]),
        },
    }
}

/// Back-to-front ordering of windows by name.
///
/// A window's index in `order` is its z index: index 0 is the backmost window.
#[derive(Debug)]
pub struct WindowOrder {
    pub order: Vec<String>,
    /// Frontmost window pressed this frame, applied at the next frame.
    pub raise: Option<(u16, String)>,
}

/// The characters of a pending request.
pub open spec fn raise_view(r: Option<(u16, String)>) -> Option<(u16, Seq<char>)> {
    match r {
        Some((z, name)) => Some((z, name@)),
        None => None,
    }
}

impl Default for WindowOrder {
    fn default() -> (r: Self)
        ensures
            r.names() == Seq::<Seq<char>>::empty(),
            r.raise is None,
    {
        let r = WindowOrder { order: Vec::new(), raise: None };
        assert(r.names() =~= Seq::<Seq<char>>::empty());
        r
    }
}

impl WindowOrder {
    /// The window names, back to front.
    pub open spec fn names(&self) -> Seq<Seq<char>> {
        self.order@.map_values(|s: String| s@)
    }

    /// The pending bring-to-front request.
    pub open spec fn pending(&self) -> Option<(u16, Seq<char>)> {
        raise_view(self.raise)
    }

    /// The first index of `name` in the order.
    fn position(&self, name: &str) -> (r: Option<usize>)
        ensures
            match r {
                Some(i) => is_first_index(self.names(), name@, i as int),
                None => forall|j: int| 0 <= j < self.names().len() ==> self.names()[j] != name@,
            },
            r is Some <==> first_index(self.names(), name@) is Some,
            r matches Some(i) ==> first_index(self.names(), name@) == Some(i as int),
    {
        let n = self.order.len();
        let mut i: usize = 0;
        while i < n
            invariant
                n == self.order.len(),
                i <= n,
                forall|j: int| 0 <= j < i ==> self.names()[j] != name@,
            decreases n - i,
        {
            if str_eq(self.order[i].as_str(), name) {
                assert(is_first_index(self.names(), name@, i as int));
                proof {
                    lemma_first_index_unique(self.names(), name@, i as int);
                }
                return Some(i);
            }
            i += 1;
        }
        None
    }

    /// The z index of `name`. An unknown window is appended, so it opens in
    /// front of every window already on screen.
    pub fn z_of(&mut self, name: &str) -> (z: u16)
        ensures
            final(self).names() == spec_z_of_names(old(self).names(), name@),
            z == spec_z_of_index(old(self).names(), name@) as u16,
            final(self).raise == old(self).raise,
    {
        let index = match self.position(name) {
            Some(i) => i,
            None => {
                self.order.push(name.to_owned());
                assert(self.names() =~= old(self).names().push(name@));
                self.order.len() - 1
            },
        };
        index as u16
    }

    /// Record a bring-to-front request. Only the frontmost candidate of a frame
    /// is kept, so the window nearest the viewer wins the click.
    pub fn raise(&mut self, z: u16, name: &str)
        ensures
            final(self).pending() == spec_raise(old(self).pending(), z, name@),
            final(self).order == old(self).order,
    {
        let replace = match &self.raise {
            Some((current, _)) => *current < z,
            None => true,
        };
        if replace {
            self.raise = Some((z, name.to_owned()));
        }
    }

    /// Apply the pending bring-to-front request and clear it.
    pub fn apply_raise(&mut self)
        ensures
            final(self).names() == spec_apply_raise(old(self).names(), old(self).pending()),
            final(self).raise is None,
    {
        let Some((_, name)) = self.raise.take() else {
            return ;
        };
        let Some(index) = self.position(name.as_str()) else {
            // the window was closed between the press and this frame
            return ;
        };
        let moved = self.order.remove(index);
        self.order.push(moved);
        assert(self.names() =~= old(self).names().remove(index as int).push(
            old(self).names()[index as int],
        ));
    }
}

/// Some index of `name` at or before `j` is its first index.
proof fn lemma_first_index_exists(names: Seq<Seq<char>>, name: Seq<char>, j: int)
    requires
        0 <= j < names.len(),
        names[j] == name,
    ensures
        exists|i: int| is_first_index(names, name, i),
    decreases j,
{
    if exists|k: int| 0 <= k < j && names[k] == name {
        let k = choose|k: int| 0 <= k < j && names[k] == name;
        lemma_first_index_exists(names, name, k);
    } else {
        assert(is_first_index(names, name, j));
    }
}

/// `first_index` finds the first occurrence, or reports that there is none.
pub proof fn lemma_first_index(names: Seq<Seq<char>>, name: Seq<char>)
    ensures
        match first_index(names, name) {
            Some(i) => is_first_index(names, name, i),
            None => forall|j: int| 0 <= j < names.len() ==> names[j] != name,
        },
{
    if exists|i: int| 0 <= i < names.len() && names[i] == name {
        let j = choose|i: int| 0 <= i < names.len() && names[i] == name;
        lemma_first_index_exists(names, name, j);
    }
}

/// The first index is unique: any index that is first equals the chosen one.
proof fn lemma_first_index_unique(names: Seq<Seq<char>>, name: Seq<char>, i: int)
    requires
        is_first_index(names, name, i),
    ensures
        first_index(names, name) == Some(i),
{
    let k = choose|k: int| is_first_index(names, name, k);
    assert(is_first_index(names, name, k));
    if k < i {
        assert(names[k] == name);
    } else if i < k {
        assert(names[i] == name);
    }
}

/// Bands end at or below `CONTEXT_LAYER - 1`, so no band ever reaches the
/// context menu layer; below the ceiling a band of `height` layers ends exactly
/// `height` layers after its base, and a base at or below the ceiling never
/// moves backwards.
pub proof fn lemma_next_base_band(base: u16, height: u16)
    ensures
        spec_next_base(base, height) <= CONTEXT_LAYER - 1,
        base + height < CONTEXT_LAYER - 1 ==> spec_next_base(base, height) == base + height,
        base <= CONTEXT_LAYER - 1 ==> base <= spec_next_base(base, height),
        forall|layer: u16| #[trigger] spec_layer_in_band(layer, base, height) ==> layer < CONTEXT_LAYER,
{
}

/// Looking a window up twice gives the same z index, and the second lookup
/// leaves the order unchanged.
pub proof fn lemma_z_of_stable(names: Seq<Seq<char>>, name: Seq<char>)
    ensures
        spec_z_of_names(spec_z_of_names(names, name), name) == spec_z_of_names(names, name),
        spec_z_of_index(spec_z_of_names(names, name), name) == spec_z_of_index(names, name),
{
    let n1 = spec_z_of_names(names, name);
    lemma_first_index(names, name);
    match first_index(names, name) {
        Some(i) => {},
        None => {
            let last = names.len() as int;
            assert(n1[last] == name);
            assert forall|j: int| 0 <= j < last implies n1[j] != name by {
                assert(n1[j] == names[j]);
            }
            assert(is_first_index(n1, name, last));
            lemma_first_index_unique(n1, name, last);
        },
    }
}

/// A window seen for the first time gets a z index in front of every window
/// already known, and known windows keep their index.
pub proof fn lemma_z_of_new_window_in_front(names: Seq<Seq<char>>, name: Seq<char>, other: Seq<char>)
    requires
        first_index(names, name) is None,
        first_index(names, other) is Some,
    ensures
        spec_z_of_index(names, other) < spec_z_of_index(names, name),
        spec_z_of_index(spec_z_of_names(names, name), other) == spec_z_of_index(names, other),
{
    lemma_first_index(names, other);
    let i = first_index(names, other)->0;
    let n1 = names.push(name);
    assert(is_first_index(n1, other, i)) by {
        assert forall|j: int| 0 <= j < i implies n1[j] != other by {
            assert(n1[j] == names[j]);
        }
    }
    lemma_first_index_unique(n1, other, i);
}

/// Looking windows up never introduces a duplicate name.
pub proof fn lemma_z_of_keeps_names_unique(names: Seq<Seq<char>>, name: Seq<char>)
    requires
        names_unique(names),
    ensures
        names_unique(spec_z_of_names(names, name)),
{
    if first_index(names, name) is None {
        let n1 = names.push(name);
        assert forall|i: int, j: int|
            0 <= i < n1.len() && 0 <= j < n1.len() && i != j implies n1[i] != n1[j] by {
            if i < names.len() && j < names.len() {
                assert(n1[i] == names[i] && n1[j] == names[j]);
            } else if i < names.len() {
                assert(n1[i] == names[i]);
            } else {
                assert(n1[j] == names[j]);
            }
        }
    }
}

/// Of two bring-to-front requests at different depths the frontmost one is
/// kept, whichever arrives first.
pub proof fn lemma_raise_keeps_frontmost(
    pending: Option<(u16, Seq<char>)>,
    z1: u16,
    name1: Seq<char>,
    z2: u16,
    name2: Seq<char>,
)
    requires
        z1 != z2,
    ensures
        spec_raise(spec_raise(pending, z1, name1), z2, name2) == spec_raise(
            spec_raise(pending, z2, name2),
            z1,
            name1,
        ),
        spec_raise(spec_raise(pending, z1, name1), z2, name2) matches Some((z, _)) && z1 <= z && z2
            <= z,
{
}

/// Applying a request moves the requested window to the front and keeps the
/// others in their relative order; every window stays open exactly as often
/// as before.
pub proof fn lemma_apply_raise_moves_to_front(names: Seq<Seq<char>>, z: u16, name: Seq<char>)
    requires
        first_index(names, name) is Some,
    ensures
        spec_apply_raise(names, Some((z, name))).len() == names.len(),
        spec_apply_raise(names, Some((z, name))).last() == name,
        spec_apply_raise(names, Some((z, name))).drop_last() == names.remove(
            first_index(names, name)->0,
        ),
        spec_apply_raise(names, Some((z, name))).to_multiset() == names.to_multiset(),
{
    lemma_first_index(names, name);
    let i = first_index(names, name)->0;
    let r = names.remove(i).push(names[i]);
    assert(r.drop_last() =~= names.remove(i));
    broadcast use vstd::seq_lib::group_seq_properties;
    assert(r.to_multiset() =~= names.to_multiset());
}

/// Applying a request never introduces a duplicate name.
pub proof fn lemma_apply_raise_keeps_names_unique(
    names: Seq<Seq<char>>,
    pending: Option<(u16, Seq<char>)>,
)
    requires
        names_unique(names),
    ensures
        names_unique(spec_apply_raise(names, pending)),
{
    if let Some((z, name)) = pending {
        if first_index(names, name) is Some {
            let i = first_index(names, name)->0;
            lemma_apply_raise_moves_to_front(names, z, name);
            let r = spec_apply_raise(names, pending);
            lemma_first_index(names, name);
            assert forall|a: int, b: int|
                0 <= a < r.len() && 0 <= b < r.len() && a != b implies r[a] != r[b] by {
                let ja = if a == r.len() - 1 { i } else if a < i { a } else { a + 1 };
                let jb = if b == r.len() - 1 { i } else if b < i { b } else { b + 1 };
                assert(r[a] == names[ja]);
                assert(r[b] == names[jb]);
                assert(ja != jb);
            }
        }
    }
}

/// A request is consumed by applying it: applying again changes nothing.
pub proof fn lemma_apply_raise_without_request(names: Seq<Seq<char>>)
    ensures
        spec_apply_raise(names, None) == names,
{
}

} // verus!
