use vstd::prelude::*;

use crate::error::{is_conflict_error, ResolveError};
use crate::fork_indexes::{accepts, no_entries, recorded};
use crate::markers::{MarkerTree, ResolverMarkers};
use crate::order::{lemma_lex_lt_asymmetric, lemma_lex_lt_total, lex_lt, sorted_pair};

verus! {

/// Recording a package with an index it may take, then recording the same
/// pair again, succeeds both times, and the second time changes nothing.
pub proof fn lemma_record_idempotent(
    entries: Map<Seq<char>, Seq<char>>,
    package: Seq<char>,
    index: Seq<char>,
)
    requires
        accepts(entries, package, index),
    ensures
        accepts(recorded(entries, package, index), package, index),
        recorded(recorded(entries, package, index), package, index) == recorded(
            entries,
            package,
            index,
        ),
{
}

/// In a fresh tracker the first index recorded for a package wins: the same
/// index is accepted again, a different one is refused.
pub proof fn lemma_first_write_wins(package: Seq<char>, first: Seq<char>, second: Seq<char>)
    ensures
        accepts(no_entries(), package, first),
        accepts(recorded(no_entries(), package, first), package, first),
        first != second ==> !accepts(recorded(no_entries(), package, first), package, second),
{
}

/// A conflict lists the two indexes in ascending order, whichever of them was
/// recorded first, so that both orders of recording report the same error.
pub proof fn lemma_conflict_order_independent(
    e: ResolveError,
    package: Seq<char>,
    a: Seq<char>,
    b: Seq<char>,
    markers: ResolverMarkers,
)
    requires
        a != b,
    ensures
        sorted_pair(a, b) == sorted_pair(b, a),
        lex_lt(sorted_pair(a, b)[0], sorted_pair(a, b)[1]),
        is_conflict_error(e, package, a, b, markers) <==> is_conflict_error(
            e,
            package,
            b,
            a,
            markers,
        ),
{
    lemma_lex_lt_total(a, b);
    lemma_lex_lt_asymmetric(a, b);
}

/// A conflict in a universal resolution is reported without markers; one in
/// a fork carries exactly that fork's markers.
pub proof fn lemma_conflict_scope(
    e: ResolveError,
    package: Seq<char>,
    previous: Seq<char>,
    index: Seq<char>,
    fork: MarkerTree,
)
    ensures
        is_conflict_error(e, package, previous, index, ResolverMarkers::Universal)
            ==> e is ConflictingIndexesUniversal,
        is_conflict_error(e, package, previous, index, ResolverMarkers::Fork(fork)) ==> (e matches ResolveError::ConflictingIndexesFork { fork_markers, .. } && fork_markers@ == fork@),
{
}

/// Two trackers are independent: a fresh one accepts any index for a package,
/// whatever another tracker recorded for it.
pub proof fn lemma_fork_isolation(package: Seq<char>, index_a: Seq<char>, index_b: Seq<char>)
    ensures
        accepts(no_entries(), package, index_a),
        accepts(no_entries(), package, index_b),
{
}

/// After a successful record, the package looks up to the recorded index;
/// a package never recorded looks up to nothing.
pub proof fn lemma_lookup_after_record(
    entries: Map<Seq<char>, Seq<char>>,
    package: Seq<char>,
    index: Seq<char>,
    other: Seq<char>,
)
    requires
        accepts(entries, package, index),
    ensures
        recorded(entries, package, index).contains_key(package),
        recorded(entries, package, index)[package] == index,
        !no_entries().contains_key(other),
{
}

} // verus!
