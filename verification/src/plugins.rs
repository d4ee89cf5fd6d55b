//! Which plugins an app was built with, and which it requires.
//!
//! Plugins are named by an integer key that the application derives from
//! the plugin's type.

use vstd::prelude::*;

use std::collections::{HashMap, HashSet};

verus! {

use vstd::std_specs::iter::IteratorSpec;

broadcast use vstd::std_specs::hash::group_hash_axioms;

/// The plugins added to an app, and the plugins that must have been added by
/// the time it is built, with their names.
pub struct PluginRegistry {
    pub plugins: HashSet<u64>,
    pub required: HashMap<u64, String>,
}

/// Some required plugin has not been added.
pub open spec fn spec_missing(plugins: Set<u64>, required: Map<u64, String>) -> bool {
    exists|k: u64| #[trigger] required.contains_key(k) && !plugins.contains(k)
}

impl Default for PluginRegistry {
    fn default() -> (r: Self)
        ensures
            r.plugins@.is_empty(),
            r.required@.is_empty(),
    {
        PluginRegistry { plugins: HashSet::new(), required: HashMap::new() }
    }
}

impl PluginRegistry {
    /// Record that the plugin `key` is added; a plugin can be added once.
    /// The caller then builds it.
    pub fn add_plugin(&mut self, key: u64)
        requires
            !old(self).plugins@.contains(key),
        ensures
            final(self).plugins@ == old(self).plugins@.insert(key),
            final(self).required@ == old(self).required@,
    {
        self.plugins.insert(key);
    }

    /// Record that the plugin `key` is needed. Returns whether it was not
    /// added yet, in which case the caller builds it; later calls change
    /// nothing.
    pub fn require_plugin(&mut self, key: u64) -> (build: bool)
        ensures
            build == !old(self).plugins@.contains(key),
            final(self).plugins@ == old(self).plugins@.insert(key),
            final(self).required@ == old(self).required@,
    {
        self.plugins.insert(key)
    }

    /// Record that the plugin `key`, called `name`, must have been added by
    /// the time the app is built.
    pub fn assert_plugin(&mut self, key: u64, name: String)
        ensures
            final(self).required@ == old(self).required@.insert(key, name),
            final(self).plugins@ == old(self).plugins@,
    {
        self.required.insert(key, name);
    }

    /// The name of a required plugin that has not been added, if any; an app
    /// with one must not be built.
    pub fn missing_plugin(&self) -> (r: Option<String>)
        ensures
            r is None <==> !spec_missing(self.plugins@, self.required@),
            r matches Some(name) ==> exists|k: u64| #[trigger] self.required@.contains_key(k)
                && !self.plugins@.contains(k) && self.required@[k] == name,
    {
        let ghost items = vstd::std_specs::hash::spec_hash_map_iter(&self.required).remaining();
        let ghost mut seen: int = 0;
        for entry in it: self.required.iter()
            invariant
                it.seq() == items,
                seen == it.index(),
                items == vstd::std_specs::hash::spec_hash_map_iter(&self.required).remaining(),
                forall|i: int| 0 <= i < seen ==> self.plugins@.contains(*(#[trigger] items[i]).0),
        {
            if !self.plugins.contains(entry.0) {
                proof {
                    let k = *entry.0;
                    assert(self.required@.contains_key(k) && self.required@[k] == *entry.1);
                }
                return Some(entry.1.clone());
            }
            proof {
                seen = seen + 1;
            }
        }
        proof {
            assert forall|k: u64| #[trigger] self.required@.contains_key(k) implies self.plugins@.contains(k) by {
                assert(items.contains((&k, &self.required@[k])));
                let i = choose|i: int| 0 <= i < items.len() && items[i] == (&k, &self.required@[k]);
                assert(self.plugins@.contains(*items[i].0));
            }
        }
        None
    }
}

/// Requiring a plugin twice builds it at most once: the second call finds it
/// added and changes nothing.
pub proof fn lemma_require_plugin_once(plugins: Set<u64>, key: u64)
    ensures
        plugins.insert(key).contains(key),
        plugins.insert(key).insert(key) == plugins.insert(key),
{
}

} // verus!
