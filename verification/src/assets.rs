//! Storage of assets by id.
//!
//! Assets are stored with the weak handle through which their owner tracks
//! whether any strong handle is still alive; the handles themselves live with
//! the reference counting of the application.

pub mod asset_id;
pub mod asset_stats;

use vstd::prelude::*;

use std::collections::HashMap;

verus! {

use vstd::std_specs::iter::IteratorSpec;

/// The id of an asset.
pub type AssetId = u64;

/// Assets of type `T` by id, each with a handle of type `W`. Ids are handed
/// out in increasing order and never reused.
pub struct AssetTable<T, W> {
    assets: HashMap<u64, (T, W)>,
    next_id: u64,
}

impl<T, W> AssetTable<T, W> {
    /// Every stored id was handed out before `next_id`.
    #[verifier::type_invariant]
    spec fn ids_below_next(self) -> bool {
        forall|id: u64| #[trigger] self.assets@.contains_key(id) ==> id < self.next_id
    }

    /// The stored assets and their handles, by id.
    pub closed spec fn entries(&self) -> Map<u64, (T, W)> {
        self.assets@
    }

    /// The id the next insert will use.
    pub closed spec fn spec_next_id(&self) -> u64 {
        self.next_id
    }

    pub fn new() -> (r: Self)
        ensures
            r.entries() == Map::<u64, (T, W)>::empty(),
            r.spec_next_id() == 0,
    {
        broadcast use vstd::std_specs::hash::group_hash_axioms;

        AssetTable { assets: HashMap::new(), next_id: 0 }
    }

    /// The id the next insert will use.
    pub fn next_id(&self) -> (r: u64)
        ensures
            r == self.spec_next_id(),
    {
        self.next_id
    }

    /// Store `val` with `handle` under a fresh id, and return the id.
    pub fn insert(&mut self, val: T, handle: W) -> (id: u64)
        requires
            old(self).spec_next_id() < u64::MAX,
        ensures
            id == old(self).spec_next_id(),
            !old(self).entries().contains_key(id),
            final(self).entries() == old(self).entries().insert(id, (val, handle)),
            final(self).spec_next_id() == old(self).spec_next_id() + 1,
    {
        broadcast use vstd::std_specs::hash::group_hash_axioms;

        proof {
            use_type_invariant(&*self);
        }
        let id = self.next_id;
        let mut assets = HashMap::new();
        std::mem::swap(&mut assets, &mut self.assets);
        assets.insert(id, (val, handle));
        *self = AssetTable { assets, next_id: id + 1 };
        id
    }

    /// Whether an asset is stored under `id`.
    pub fn contains(&self, id: u64) -> (r: bool)
        ensures
            r == self.entries().contains_key(id),
    {
        broadcast use vstd::std_specs::hash::group_hash_axioms;

        self.assets.contains_key(&id)
    }

    /// The asset stored under `id`, if any.
    pub fn get_by_id(&self, id: u64) -> (r: Option<&T>)
        ensures
            match r {
                Some(v) => self.entries().contains_key(id) && *v == self.entries()[id].0,
                None => !self.entries().contains_key(id),
            },
    {
        broadcast use vstd::std_specs::hash::group_hash_axioms;

        match self.assets.get(&id) {
            Some(entry) => Some(&entry.0),
            None => None,
        }
    }

    /// The asset stored under `id`, which must be stored.
    pub fn get(&self, id: u64) -> (r: &T)
        requires
            self.entries().contains_key(id),
        ensures
            *r == self.entries()[id].0,
    {
        broadcast use vstd::std_specs::hash::group_hash_axioms;

        &self.assets.get(&id).unwrap().0
    }

    /// The handle stored with the asset under `id`, if any.
    pub fn handle_of(&self, id: u64) -> (r: Option<&W>)
        ensures
            match r {
                Some(h) => self.entries().contains_key(id) && *h == self.entries()[id].1,
                None => !self.entries().contains_key(id),
            },
    {
        broadcast use vstd::std_specs::hash::group_hash_axioms;

        match self.assets.get(&id) {
            Some(entry) => Some(&entry.1),
            None => None,
        }
    }

    /// The number of stored assets.
    pub fn len(&self) -> (r: usize)
        ensures
            r == self.entries().len(),
    {
        broadcast use vstd::std_specs::hash::group_hash_axioms;

        self.assets.len()
    }

    /// The stored ids, each once, in no particular order. Each was handed
    /// out before the id the next insert will use.
    pub fn ids(&self) -> (r: Vec<u64>)
        ensures
            r@.to_set() == self.entries().dom(),
            r@.no_duplicates(),
            forall|i: int| 0 <= i < r@.len() ==> #[trigger] r@[i] < self.spec_next_id(),
    {
        broadcast use vstd::std_specs::hash::group_hash_axioms;

        proof {
            use_type_invariant(self);
        }
        broadcast use vstd::seq_lib::group_seq_properties;

        let ghost items = vstd::std_specs::hash::spec_keys_iter(&self.assets).remaining();
        let mut out: Vec<u64> = Vec::new();
        let ghost mut seen: int = 0;
        for k in it: self.assets.keys()
            invariant
                it.seq() == items,
                items == vstd::std_specs::hash::spec_keys_iter(&self.assets).remaining(),
                seen == it.index(),
                0 <= seen <= items.len(),
                out@ == items.subrange(0, seen).unref(),
        {
            proof {
                assert(items.subrange(0, seen + 1).unref() =~= items.subrange(0, seen).unref().push(*k));
                seen = seen + 1;
            }
            out.push(*k);
        }
        proof {
            assert(items.subrange(0, seen) =~= items);
            let u = items.unref();
            assert(items.no_duplicates());
            assert forall|i: int, j: int| 0 <= i < u.len() && 0 <= j < u.len() && i != j implies u[i] != u[j] by {
                assert(items[i] != items[j]);
            }
            assert forall|i: int| 0 <= i < out@.len() implies #[trigger] out@[i] < self.spec_next_id() by {
                assert(out@.to_set().contains(out@[i]));
            }
        }
        out
    }

    /// Drop every asset whose handle `keep` rejects.
    pub fn retain<F: Fn(&W) -> bool>(&mut self, keep: F)
        requires
            forall|w: &W| #[trigger] keep.requires((w,)),
        ensures
            final(self).spec_next_id() == old(self).spec_next_id(),
            final(self).entries().dom().subset_of(old(self).entries().dom()),
            forall|id: u64| #[trigger] final(self).entries().contains_key(id) ==> final(self).entries()[id]
                == old(self).entries()[id] && keep.ensures((&old(self).entries()[id].1,), true),
            forall|id: u64|
                old(self).entries().contains_key(id) && !final(self).entries().contains_key(id)
                    ==> #[trigger] keep.ensures((&old(self).entries()[id].1,), false),
    {
        broadcast use vstd::std_specs::hash::group_hash_axioms;

        proof {
            use_type_invariant(&*self);
        }
        let ids = self.ids();
        let ghost start = self.entries();
        proof {
            broadcast use vstd::seq_lib::group_seq_properties;

            assert(ids@.subrange(0, ids.len() as int) =~= ids@);
            assert forall|id: u64| #[trigger] self.assets@.contains_key(id) implies ids@.subrange(
                0,
                ids.len() as int,
            ).contains(id) by {
                assert(ids@.to_set().contains(id));
            }
        }
        let mut i: usize = 0;
        while i < ids.len()
            invariant
                i <= ids.len(),
                ids@.to_set() == start.dom(),
                ids@.no_duplicates(),
                forall|id: u64| #[trigger] self.assets@.contains_key(id) ==> id < self.next_id,
                self.next_id == old(self).next_id,
                start == old(self).entries(),
                forall|k: int| i <= k < ids.len() ==> self.assets@.contains_key(#[trigger] ids@[k]),
                self.assets@.dom().subset_of(start.dom()),
                forall|id: u64| #[trigger] self.assets@.contains_key(id) ==> self.assets@[id]
                    == start[id],
                forall|id: u64|
                    #[trigger] self.assets@.contains_key(id) && !ids@.subrange(i as int, ids.len() as int).contains(id)
                        ==> keep.ensures((&start[id].1,), true),
                forall|id: u64|
                    start.contains_key(id) && !self.assets@.contains_key(id)
                        ==> #[trigger] keep.ensures((&start[id].1,), false),
                forall|w: &W| #[trigger] keep.requires((w,)),
            decreases ids.len() - i,
        {
            let id = ids[i];
            let kept = {
                let entry = self.assets.get(&id).unwrap();
                keep(&entry.1)
            };
            if !kept {
                let mut assets = HashMap::new();
                std::mem::swap(&mut assets, &mut self.assets);
                assets.remove(&id);
                *self = AssetTable { assets, next_id: self.next_id };
            }
            proof {
                assert forall|k: int| i + 1 <= k < ids.len() implies self.assets@.contains_key(#[trigger] ids@[k]) by {
                    assert(ids@[k] != ids@[i as int]);
                }
                assert forall|x: u64|
                    #[trigger] self.assets@.contains_key(x) && !ids@.subrange(i + 1, ids.len() as int).contains(x)
                        implies keep.ensures((&start[x].1,), true) by {
                    if x == id {
                    } else {
                        if ids@.subrange(i as int, ids.len() as int).contains(x) {
                            let k = choose|k: int| 0 <= k < ids.len() - i && ids@.subrange(i as int, ids.len() as int)[k] == x;
                            if k > 0 {
                                assert(ids@.subrange(i + 1, ids.len() as int)[k - 1] == x);
                            }
                        }
                    }
                }
            }
            i += 1;
        }
        proof {
            assert forall|id: u64| #[trigger] self.assets@.contains_key(id) implies keep.ensures((&start[id].1,), true) by {
                assert(!ids@.subrange(ids.len() as int, ids.len() as int).contains(id));
            }
        }
    }
}

impl<T, W> Default for AssetTable<T, W> {
    fn default() -> (r: Self)
        ensures
            r.entries() == Map::<u64, (T, W)>::empty(),
            r.spec_next_id() == 0,
    {
        Self::new()
    }
}

} // verus!
