use std::collections::HashMap;

use rustc_hash::{FxBuildHasher, FxHashMap};
use vstd::prelude::*;

use crate::error::{is_conflict_error, ResolveError};
use crate::markers::ResolverMarkers;
use crate::names::{IndexUrl, PackageName};
use crate::order::sorted_strings;

verus! {

/// Declares rustc-hash's `FxBuildHasher`, the hasher that `FxHashMap` is built
/// with; its values are carried through, never read.
#[verifier::external_type_specification]
#[verifier::external_body]
pub struct ExFxBuildHasher(FxBuildHasher);

/// The map that a fork's tracker holds.
type IndexMap = FxHashMap<PackageName, IndexUrl>;

/// What a map from package names to indexes holds, by the names' and the
/// indexes' views.
pub uninterp spec fn fx_entries(m: HashMap<PackageName, IndexUrl, FxBuildHasher>) -> Map<
    Seq<char>,
    Seq<char>,
>;

/// Relies on `Default` for `FxHashMap` (std's `HashMap::default`): an empty map.
#[verifier::external_body]
fn fx_new() -> (r: IndexMap)
    ensures
        fx_entries(r) == no_entries(),
{
    IndexMap::default()
}

/// Relies on `HashMap::get` for `FxHashMap`: the value under an equal key.
/// Keys compare and hash as their names do.
#[verifier::external_body]
fn fx_get<'a>(m: &'a IndexMap, k: &PackageName) -> (r: Option<&'a IndexUrl>)
    ensures
        r is Some <==> fx_entries(*m).contains_key(k@),
        r matches Some(v) ==> v@ == fx_entries(*m)[k@],
{
    m.get(k)
}

/// Relies on `HashMap::insert` for `FxHashMap`: the key now maps to the value,
/// other keys are kept.
#[verifier::external_body]
fn fx_insert(m: &mut IndexMap, k: &PackageName, v: &IndexUrl)
    ensures
        fx_entries(*final(m)) == fx_entries(*old(m)).insert(k@, v@),
{
    m.insert(k.clone(), v.clone());
}

/// A fork with no package recorded.
pub open spec fn no_entries() -> Map<Seq<char>, Seq<char>> {
    Map::empty()
}

/// Whether `index` may be recorded for `package` in a fork that holds
/// `entries`: the package has no index yet, or has that one.
pub open spec fn accepts(entries: Map<Seq<char>, Seq<char>>, package: Seq<char>, index: Seq<char>) -> bool {
    !entries.contains_key(package) || entries[package] == index
}

/// The entries after proposing `index` for `package`: the first index
/// recorded for a package stays.
pub open spec fn recorded(entries: Map<Seq<char>, Seq<char>>, package: Seq<char>, index: Seq<char>) -> Map<
    Seq<char>,
    Seq<char>,
> {
    if entries.contains_key(package) {
        entries
    } else {
        entries.insert(package, index)
    }
}

/// The index used for each package within one fork.
#[derive(Clone, Debug)]
pub struct ForkIndexes(IndexMap);

impl View for ForkIndexes {
    type V = Map<Seq<char>, Seq<char>>;

    closed spec fn view(&self) -> Map<Seq<char>, Seq<char>> {
        fx_entries(self.0)
    }
}

impl Default for ForkIndexes {
    /// A tracker with no package recorded.
    fn default() -> (r: ForkIndexes)
        ensures
            r@ == no_entries(),
    {
        ForkIndexes(fx_new())
    }
}

impl ForkIndexes {
    /// The index previously used for a package in this fork.
    pub fn get(&self, package_name: &PackageName) -> (r: Option<&IndexUrl>)
        ensures
            r is Some <==> self@.contains_key(package_name@),
            r matches Some(index) ==> index@ == self@[package_name@],
    {
        fx_get(&self.0, package_name)
    }

    /// Checks that `index` is the only index used for the package in this
    /// fork, and records it if the package has none yet.
    ///
    /// On a conflict the tracker is left as it was, and the error names the
    /// package, both indexes in ascending order, and the fork's markers when
    /// the resolution is forked.
    pub fn insert(
        &mut self,
        package_name: &PackageName,
        index: &IndexUrl,
        fork_markers: &ResolverMarkers,
    ) -> (r: Result<(), ResolveError>)
        ensures
            final(self)@ == recorded(old(self)@, package_name@, index@),
            r is Ok <==> accepts(old(self)@, package_name@, index@),
            r matches Err(e) ==> is_conflict_error(
                e,
                package_name@,
                old(self)@[package_name@],
                index@,
                *fork_markers,
            ),
    {
        match fx_get(&self.0, package_name) {
            Some(previous) => {
                if previous.same_location(index) {
                    return Ok(());
                }
                let conflicts = sorted_strings(previous.to_string(), index.to_string());
                match fork_markers {
                    ResolverMarkers::Universal => {
                        Err(ResolveError::ConflictingIndexesUniversal(package_name.duplicate(), conflicts))
                    },
                    ResolverMarkers::Fork(markers) => {
                        Err(ResolveError::ConflictingIndexesFork {
                            package_name: package_name.duplicate(),
                            indexes: conflicts,
                            fork_markers: markers.duplicate(),
                        })
                    },
                }
            },
            None => {
                fx_insert(&mut self.0, package_name, index);
                Ok(())
            },
        }
    }
}

} // verus!
