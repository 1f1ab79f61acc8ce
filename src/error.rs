use vstd::prelude::*;

use crate::markers::{MarkerTree, ResolverMarkers};
use crate::names::PackageName;
use crate::order::sorted_pair;

verus! {

/// The views of a list of strings.
pub open spec fn string_views(v: Seq<String>) -> Seq<Seq<char>> {
    v.map_values(|s: String| s@)
}

/// A package was assigned two different indexes within one resolution scope.
#[derive(Clone, Debug, PartialEq, Eq)]
pub enum ResolveError {
    /// The conflict holds in a resolution that is not partitioned by
    /// environment, or is pinned to a single environment.
    ConflictingIndexesUniversal(PackageName, Vec<String>),
    /// The conflict holds within the fork delimited by `fork_markers`.
    ConflictingIndexesFork {
        package_name: PackageName,
        indexes: Vec<String>,
        fork_markers: MarkerTree,
    },
}

/// The indexes as a list, each on a line of its own after `- `.
pub open spec fn bullet_list(items: Seq<Seq<char>>) -> Seq<char>
    decreases items.len(),
{
    if items.len() == 0 {
        Seq::empty()
    } else {
        bullet_list(items.drop_last()) + "\n- "@ + items.last()
    }
}

/// The message that describes an error to a user.
pub open spec fn message_of(e: ResolveError) -> Seq<char> {
    match e {
        ResolveError::ConflictingIndexesUniversal(name, indexes) => "Requirements contain conflicting indexes for package `"@
            + name@ + "`:"@ + bullet_list(string_views(indexes@)),
        ResolveError::ConflictingIndexesFork { package_name, indexes, fork_markers } =>
            "Requirements contain conflicting indexes for package `"@ + package_name@
            + "` in split `"@ + fork_markers@ + "`:"@ + bullet_list(string_views(indexes@)),
    }
}

fn append_bullets(out: &mut String, items: &Vec<String>)
    ensures
        final(out)@ == old(out)@ + bullet_list(string_views(items@)),
{
    let ghost start = out@;
    let mut i: usize = 0;
    while i < items.len()
        invariant
            i <= items@.len(),
            out@ == start + bullet_list(string_views(items@.subrange(0, i as int))),
        decreases items@.len() - i,
    {
        out.append("\n- ");
        out.append(items[i].as_str());
        proof {
            assert(items@.subrange(0, i + 1).drop_last() =~= items@.subrange(0, i as int));
            assert(string_views(items@.subrange(0, i + 1)).drop_last() =~= string_views(items@.subrange(0, i as int)));
        }
        i = i + 1;
    }
    assert(items@.subrange(0, items@.len() as int) =~= items@);
}

impl ResolveError {
    /// A description of the conflict for the user: the package, each index
    /// on a line of its own, and the fork's markers for a forked resolution.
    pub fn message(&self) -> (r: String)
        ensures
            r@ == message_of(*self),
    {
        match self {
            ResolveError::ConflictingIndexesUniversal(name, indexes) => {
                let mut out = String::from_str("Requirements contain conflicting indexes for package `");
                out.append(name.as_str());
                out.append("`:");
                append_bullets(&mut out, indexes);
                out
            },
            ResolveError::ConflictingIndexesFork { package_name, indexes, fork_markers } => {
                let mut out = String::from_str("Requirements contain conflicting indexes for package `");
                out.append(package_name.as_str());
                out.append("` in split `");
                out.append(fork_markers.as_str());
                out.append("`:");
                append_bullets(&mut out, indexes);
                out
            },
        }
    }
}

/// `e` reports that `package` was proposed with `index` while `previous` was
/// recorded, both listed in ascending order, in the scope given by `markers`:
/// with no markers for a universal resolution, with the fork's markers
/// otherwise.
pub open spec fn is_conflict_error(
    e: ResolveError,
    package: Seq<char>,
    previous: Seq<char>,
    index: Seq<char>,
    markers: ResolverMarkers,
) -> bool {
    match markers {
        ResolverMarkers::Universal => match e {
            ResolveError::ConflictingIndexesUniversal(name, indexes) => {
                &&& name@ == package
                &&& string_views(indexes@) == sorted_pair(previous, index)
            },
            _ => false,
        },
        ResolverMarkers::Fork(fork) => match e {
            ResolveError::ConflictingIndexesFork { package_name, indexes, fork_markers } => {
                &&& package_name@ == package
                &&& string_views(indexes@) == sorted_pair(previous, index)
                &&& fork_markers@ == fork@
            },
            _ => false,
        },
    }
}

} // verus!
