//! Bookkeeping of asset loads: where assets are looked for, how far each load
//! has come, and which load results are final.

use vstd::prelude::*;

verus! {

use vstd::std_specs::iter::IteratorSpec;

/// Registers asset loading with an app.
pub struct AssetRegistryPlugin;

/// Directories where assets are looked for, in order of preference.
pub struct AssetBasePaths(pub Vec<String>);

/// Why a load failed.
#[derive(Debug, Clone)]
pub enum AssetLoadError {
    FileNotFound(String),
    LoaderNotFound,
    LoadFailed(String),
}

/// How far the load of an asset has come.
#[derive(Debug)]
pub enum AssetLoadState {
    Loaded,
    Loading,
    Error(AssetLoadError),
}

impl Default for AssetLoadState {
    fn default() -> (r: Self)
        ensures
            r is Loading,
    {
        AssetLoadState::Loading
    }
}

/// The load state of every asset whose load was requested, by asset id.
#[derive(Debug)]
pub struct AssetsLoadStatus(std::collections::HashMap<u64, AssetLoadState>);

impl View for AssetsLoadStatus {
    type V = Map<u64, AssetLoadState>;

    closed spec fn view(&self) -> Map<u64, AssetLoadState> {
        self.0@
    }
}

impl Default for AssetsLoadStatus {
    fn default() -> (r: Self)
        ensures
            r@ == Map::<u64, AssetLoadState>::empty(),
    {
        AssetsLoadStatus(std::collections::HashMap::new())
    }
}

/// Some requested load is still running.
pub open spec fn spec_anything_loading(m: Map<u64, AssetLoadState>) -> bool {
    exists|id: u64| #[trigger] m.contains_key(id) && m[id] is Loading
}

impl AssetsLoadStatus {
    /// The load state of the asset `id`, if its load was requested.
    pub fn status(&self, id: u64) -> (r: Option<&AssetLoadState>)
        ensures
            match r {
                Some(s) => self@.contains_key(id) && self@[id] == *s,
                None => !self@.contains_key(id),
            },
    {
        broadcast use vstd::std_specs::hash::group_hash_axioms;

        self.0.get(&id)
    }

    /// Record the load state of the asset `id`.
    pub fn set(&mut self, id: u64, state: AssetLoadState)
        ensures
            final(self)@ == old(self)@.insert(id, state),
    {
        broadcast use vstd::std_specs::hash::group_hash_axioms;

        self.0.insert(id, state);
    }

    /// Whether any requested load is still running.
    pub fn is_anything_loading(&self) -> (r: bool)
        ensures
            r == spec_anything_loading(self@),
    {
        broadcast use vstd::std_specs::hash::group_hash_axioms;

        let mut found = false;
        let ghost items = vstd::std_specs::hash::spec_hash_map_iter(&self.0).remaining();
        let ghost mut seen: int = 0;
        for entry in it: self.0.iter()
            invariant
                it.seq() == items,
                seen == it.index(),
                items == vstd::std_specs::hash::spec_hash_map_iter(&self.0).remaining(),
                found ==> spec_anything_loading(self@),
                !found ==> forall|i: int| 0 <= i < seen ==> !(#[trigger] items[i].1 is Loading),
        {
            if let AssetLoadState::Loading = entry.1 {
                proof {
                    let k = *entry.0;
                    assert(self@.contains_key(k) && self@[k] == *entry.1);
                }
                found = true;
            }
            proof {
                seen = seen + 1;
            }
        }
        proof {
            if !found {
                assert forall|id: u64| #[trigger] self@.contains_key(id) implies !(self@[id] is Loading) by {
                    assert(items.contains((&id, &self@[id])));
                    let i = choose|i: int| 0 <= i < items.len() && items[i] == (&id, &self@[id]);
                    assert(!(items[i].1 is Loading));
                }
            }
        }
        found
    }
}

/// The asset loading stage runs only while some load is still running.
pub fn check_loading(status: &AssetsLoadStatus) -> (r: bool)
    ensures
        r == spec_anything_loading(status@),
{
    status.is_anything_loading()
}

/// A load attempt with this result ends the search for the asset: it
/// succeeded, or failed for another reason than a missing file.
pub open spec fn spec_is_final_result<T>(result: Result<T, AssetLoadError>) -> bool {
    !(result matches Err(AssetLoadError::FileNotFound(_)))
}

/// Whether the search over candidate paths stops at this result and reports it.
pub fn is_final_result<T>(result: &Result<T, AssetLoadError>) -> (r: bool)
    ensures
        r == spec_is_final_result(*result),
{
    match result {
        Err(AssetLoadError::FileNotFound(_)) => false,
        _ => true,
    }
}

/// The load state that a delivered load result gives the asset.
pub fn state_of_result<T>(result: Result<T, AssetLoadError>) -> (r: (Option<T>, AssetLoadState))
    ensures
        match result {
            Ok(v) => r.0 == Some(v) && r.1 is Loaded,
            Err(e) => r.0 is None && r.1 == AssetLoadState::Error(e),
        },
{
    match result {
        Ok(v) => (Some(v), AssetLoadState::Loaded),
        Err(e) => (None, AssetLoadState::Error(e)),
    }
}

/// A path separator on some platform: a slash, or a backslash on Windows.
pub open spec fn is_sep(c: char) -> bool {
    c == '/' || c == '\\'
}

/// A relative path that joins by plain concatenation on every platform: it
/// does not start with a separator, and has no `:`, so no drive or other
/// prefix.
pub open spec fn plain_relative(path: Seq<char>) -> bool {
    &&& !(path.len() > 0 && is_sep(path[0]))
    &&& forall|i: int| 0 <= i < path.len() ==> path[i] != ':'
}

/// A path with a verbatim or device prefix (`\\?\`, `\\.\` or the same with
/// `/`), below which Windows rewrites what is joined.
pub open spec fn verbatim_like(base: Seq<char>) -> bool {
    base.len() >= 3 && is_sep(base[0]) && is_sep(base[1]) && (base[2] == '?' || base[2] == '.')
}

/// `joined` is `path` adjoined below `base`: right after it when `base` is
/// empty or already ends in a separator, else after a separator.
pub open spec fn joined_below(base: Seq<char>, path: Seq<char>, joined: Seq<char>) -> bool {
    ||| joined == base + path
    ||| joined == base + seq!['/'] + path
    ||| joined == base + seq!['\\'] + path
}

/// Trusted: `Path::join` of std, with both paths and the result as text.
/// For a plain relative `path` below a base without a verbatim prefix,
/// std documents that `path` is adjoined to the base; that is stated. Which
/// separator is used, and whether one is added, depends on the platform and
/// is left open between the three forms of [`joined_below`]; nothing is
/// stated of other paths.
#[verifier::external_body]
fn path_join(base: &str, path: &str) -> (r: String)
    ensures
        plain_relative(path@) && !verbatim_like(base@) ==> joined_below(base@, path@, r@),
{
    std::path::Path::new(base).join(path).to_string_lossy().into_owned()
}

/// The paths at which `path` is looked for: `path` below each base path, in
/// the order of the base paths.
pub fn get_candidate_paths(basepaths: &AssetBasePaths, path: &str) -> (r: Vec<String>)
    ensures
        r.len() == basepaths.0.len(),
        forall|i: int|
            0 <= i < r.len() && plain_relative(path@) && !verbatim_like(basepaths.0@[i]@)
                ==> joined_below(basepaths.0@[i]@, path@, #[trigger] r@[i]@),
{
    let mut out: Vec<String> = Vec::new();
    let mut i: usize = 0;
    while i < basepaths.0.len()
        invariant
            i <= basepaths.0.len(),
            out.len() == i,
            forall|k: int|
                0 <= k < i && plain_relative(path@) && !verbatim_like(basepaths.0@[k]@)
                    ==> joined_below(basepaths.0@[k]@, path@, #[trigger] out@[k]@),
        decreases basepaths.0.len() - i,
    {
        out.push(path_join(basepaths.0[i].as_str(), path));
        i += 1;
    }
    out
}

/// Adds a loader of assets of type `T` to an app.
pub struct AssetLoaderPlugin<T, L> {
    loader: L,
    _m: std::marker::PhantomData<T>,
}

impl<T, L> AssetLoaderPlugin<T, L> {
    /// The loader this plugin adds.
    pub closed spec fn spec_loader(&self) -> L {
        self.loader
    }

    pub fn new(loader: L) -> (r: Self)
        ensures
            r.spec_loader() == loader,
    {
        Self { loader, _m: std::marker::PhantomData }
    }

    /// Give up the plugin for its loader.
    pub fn into_loader(self) -> (r: L)
        ensures
            r == self.spec_loader(),
    {
        self.loader
    }
}

} // verus!
