//! Typed asset ids.

use vstd::prelude::*;

use std::marker::PhantomData;

verus! {

/// The id that refers to no asset.
pub const ASSET_ID_SENTINEL: u64 = 0xFFFF_FFFF_FFFF_FFFF;

/// The id of an asset of type `T`.
pub struct AssetId<T> {
    id: u64,
    _m: PhantomData<T>,
}

impl<T> AssetId<T> {
    /// The raw id.
    pub closed spec fn spec_id(&self) -> u64 {
        self.id
    }

    pub fn new(id: u64) -> (r: Self)
        ensures
            r.spec_id() == id,
    {
        AssetId { id, _m: PhantomData }
    }

    /// The id that refers to no asset.
    pub fn sentinel() -> (r: Self)
        ensures
            r.spec_id() == ASSET_ID_SENTINEL,
    {
        AssetId { id: ASSET_ID_SENTINEL, _m: PhantomData }
    }

    pub fn id(&self) -> (r: u64)
        ensures
            r == self.spec_id(),
    {
        self.id
    }
}

impl<T> Default for AssetId<T> {
    fn default() -> (r: Self)
        ensures
            r.spec_id() == ASSET_ID_SENTINEL,
    {
        AssetId::sentinel()
    }
}

impl<T> Clone for AssetId<T> {
    fn clone(&self) -> (r: Self)
        ensures
            r.spec_id() == self.spec_id(),
    {
        AssetId { id: self.id, _m: PhantomData }
    }
}

impl<T> Copy for AssetId<T> {
}

impl<T> PartialEq for AssetId<T> {
    fn eq(&self, other: &Self) -> (r: bool) {
        self.id == other.id
    }
}

impl<T> vstd::std_specs::cmp::PartialEqSpecImpl for AssetId<T> {
    open spec fn obeys_eq_spec() -> bool {
        true
    }

    open spec fn eq_spec(&self, other: &Self) -> bool {
        self.spec_id() == other.spec_id()
    }
}

impl<T> Eq for AssetId<T> {
}

} // verus!
