//! Statistics about the stored assets, one entry per asset type.
//!
//! Asset types are named by an integer key that the application derives
//! from the type.

use vstd::prelude::*;

use std::collections::BTreeMap;

use super::AssetTable;

verus! {

broadcast use vstd::std_specs::btree::group_btree_axioms;

/// What is known of the assets of one type.
pub struct AssetStatsEntry {
    pub data_references: usize,
    pub weak_references: usize,
    /// The name of the asset type.
    pub name: String,
    pub size: usize,
}

/// Statistics of every asset type that was registered, by type key.
pub struct AssetStats {
    pub references: BTreeMap<u64, AssetStatsEntry>,
}

impl Default for AssetStats {
    fn default() -> (r: Self)
        ensures
            r.references@ == Map::<u64, AssetStatsEntry>::empty(),
    {
        AssetStats { references: BTreeMap::new() }
    }
}

/// The entry of a type that was just registered: nothing counted yet.
pub open spec fn fresh_entry(name: String) -> AssetStatsEntry {
    AssetStatsEntry { data_references: 0, weak_references: 0, name, size: 0 }
}

/// Register the asset type `type_key`, named `name`, with empty
/// counts; an earlier entry of that type is replaced.
pub fn setup_asset_stats_entry(stats: &mut AssetStats, type_key: u64, name: String)
    ensures
        final(stats).references@ == old(stats).references@.insert(type_key, fresh_entry(name)),
{
    stats.references.insert(
        type_key,
        AssetStatsEntry { data_references: 0, weak_references: 0, name, size: 0 },
    );
}

/// The sum of the strong reference counts in `counts`.
pub open spec fn sum_strong(counts: Seq<(usize, usize)>) -> int
    decreases counts.len(),
{
    if counts.len() == 0 {
        0
    } else {
        sum_strong(counts.drop_last()) + counts.last().0
    }
}

/// The sum of the weak reference counts in `counts`.
pub open spec fn sum_weak(counts: Seq<(usize, usize)>) -> int
    decreases counts.len(),
{
    if counts.len() == 0 {
        0
    } else {
        sum_weak(counts.drop_last()) + counts.last().1
    }
}

proof fn lemma_sums_grow(counts: Seq<(usize, usize)>, k: int)
    requires
        0 <= k <= counts.len(),
    ensures
        0 <= sum_strong(counts.take(k)) <= sum_strong(counts),
        0 <= sum_weak(counts.take(k)) <= sum_weak(counts),
    decreases counts.len() - k,
{
    if k < counts.len() {
        lemma_sums_grow(counts, k + 1);
        assert(counts.take(k + 1).drop_last() =~= counts.take(k));
    } else {
        assert(counts.take(k) =~= counts);
    }
    lemma_sums_nonnegative(counts.take(k));
}

proof fn lemma_sums_nonnegative(counts: Seq<(usize, usize)>)
    ensures
        0 <= sum_strong(counts),
        0 <= sum_weak(counts),
    decreases counts.len(),
{
    if counts.len() > 0 {
        lemma_sums_nonnegative(counts.drop_last());
    }
}

/// Record in the entry of `type_key`, which must be registered, how many
/// assets `assets` holds and the sums of their reference counts. `counts`
/// holds the strong and the weak reference count of each stored asset. The
/// name is kept.
pub fn update_stats_system<T, W>(
    assets: &AssetTable<T, W>,
    counts: &Vec<(usize, usize)>,
    stats: &mut AssetStats,
    type_key: u64,
)
    requires
        old(stats).references@.contains_key(type_key),
        counts@.len() == assets.entries().len(),
        sum_strong(counts@) <= usize::MAX,
        sum_weak(counts@) <= usize::MAX,
    ensures
        final(stats).references@ == old(stats).references@.insert(
            type_key,
            AssetStatsEntry {
                size: assets.entries().len() as usize,
                data_references: sum_strong(counts@) as usize,
                weak_references: sum_weak(counts@) as usize,
                ..old(stats).references@[type_key]
            },
        ),
{
    let size = assets.len();
    let mut data: usize = 0;
    let mut weak: usize = 0;
    let mut k: usize = 0;
    while k < counts.len()
        invariant
            k <= counts.len(),
            sum_strong(counts@) <= usize::MAX,
            sum_weak(counts@) <= usize::MAX,
            data == sum_strong(counts@.take(k as int)),
            weak == sum_weak(counts@.take(k as int)),
        decreases counts.len() - k,
    {
        proof {
            assert(counts@.take(k + 1).drop_last() =~= counts@.take(k as int));
            lemma_sums_grow(counts@, k + 1);
        }
        data = data + counts[k].0;
        weak = weak + counts[k].1;
        k += 1;
    }
    proof {
        assert(counts@.take(counts.len() as int) =~= counts@);
    }
    let entry = stats.references.remove(&type_key).unwrap();
    stats.references.insert(
        type_key,
        AssetStatsEntry { size, data_references: data, weak_references: weak, ..entry },
    );
    proof {
        assert(stats.references@ =~= old(stats).references@.insert(
            type_key,
            AssetStatsEntry {
                size,
                data_references: data,
                weak_references: weak,
                ..old(stats).references@[type_key]
            },
        ));
    }
}

} // verus!
