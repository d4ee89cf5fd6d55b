//! Counts that describe the state of the world, collected once per frame.

use vstd::prelude::*;

verus! {

/// Sizes of the world at the end of the last frame.
#[derive(Clone, Debug)]
pub struct Diagnostics {
    pub entities: usize,
    pub archetypes: usize,
    pub staging_archetypes: usize,
    pub resources: usize,
}

impl Default for Diagnostics {
    fn default() -> (r: Self)
        ensures
            r.entities == 0,
            r.archetypes == 0,
            r.staging_archetypes == 0,
            r.resources == 0,
    {
        Diagnostics { entities: 0, archetypes: 0, staging_archetypes: 0, resources: 0 }
    }
}

} // verus!
