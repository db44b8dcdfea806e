//! The guarantees of the search, stated over any result that satisfies
//! [`resolve_result_matches`] — that is, over anything [`crate::resolve::resolve`]
//! can return.

use vstd::prelude::*;
use crate::render::pretty_json_of;
use crate::resolve::CandidateDir;
use crate::resolve::Chosen;
use crate::resolve::ResolveError;
use crate::resolve::ambiguous_artifact_at;
use crate::resolve::ambiguous_source_at;
use crate::resolve::artifact_chosen_at;
use crate::resolve::dir_skipped;
use crate::resolve::listing_names;
use crate::resolve::prefix_skipped;
use crate::resolve::resolve_result_matches;
use crate::resolve::source_chosen_at;
use crate::resolve::unreadable_at;
use crate::suffix::artifact_suffix;
use crate::suffix::count_with_suffix;
use crate::suffix::is_artifact_name;
use crate::suffix::is_source_name;
use crate::suffix::lemma_single_match_unique;
use crate::suffix::source_suffix;

verus! {

/// At most one candidate can be the first one not passed over.
proof fn lemma_active_unique(ds: Seq<CandidateDir>, a: int, b: int)
    requires
        0 <= a < ds.len(),
        0 <= b < ds.len(),
        prefix_skipped(ds, a),
        !dir_skipped(ds[a]),
        prefix_skipped(ds, b),
        !dir_skipped(ds[b]),
    ensures
        a == b,
{
    if a < b {
        assert(dir_skipped(ds[a]));
    } else if b < a {
        assert(dir_skipped(ds[b]));
    }
}

/// Whatever the search returns, it is decided at the first candidate that is
/// not passed over.
proof fn lemma_decided_at_first_active(
    ds: Seq<CandidateDir>,
    r: Result<Chosen, ResolveError>,
    k: int,
)
    requires
        resolve_result_matches(ds, r),
        0 <= k < ds.len(),
        prefix_skipped(ds, k),
        !dir_skipped(ds[k]),
    ensures
        match r {
            Ok(Chosen::Artifact { dir, file }) => dir == k,
            Ok(Chosen::Source { dir, file }) => dir == k,
            Err(ResolveError::AmbiguousArtifact { dir }) => ambiguous_artifact_at(ds, k)
                && dir@ == ds[k].path@,
            Err(ResolveError::AmbiguousSource { dir }) => ambiguous_source_at(ds, k)
                && dir@ == ds[k].path@,
            Err(ResolveError::Io { path, message }) => unreadable_at(ds, k)
                && path@ == ds[k].path@ && message@ == ds[k].state->Unreadable_0@,
            Err(ResolveError::NotFound) => false,
        },
{
    match r {
        Ok(Chosen::Artifact { dir, file }) => {
            lemma_active_unique(ds, k, dir as int);
        },
        Ok(Chosen::Source { dir, file }) => {
            lemma_active_unique(ds, k, dir as int);
        },
        Err(ResolveError::AmbiguousArtifact { dir }) => {
            let k2 = choose|k2: int| ambiguous_artifact_at(ds, k2) && dir@ == ds[k2].path@;
            lemma_active_unique(ds, k, k2);
        },
        Err(ResolveError::AmbiguousSource { dir }) => {
            let k2 = choose|k2: int| ambiguous_source_at(ds, k2) && dir@ == ds[k2].path@;
            lemma_active_unique(ds, k, k2);
        },
        Err(ResolveError::Io { path, message }) => {
            let k2 = choose|k2: int| {
                &&& unreadable_at(ds, k2)
                &&& path@ == ds[k2].path@
                &&& message@ == ds[k2].state->Unreadable_0@
            };
            lemma_active_unique(ds, k, k2);
        },
        Err(ResolveError::NotFound) => {
            assert(dir_skipped(ds[k]));
        },
    }
}

/// If the first candidate directory that is not passed over holds exactly one
/// artifact file and no source file, the search settles on that artifact
/// file; the host then returns its contents verbatim.
pub proof fn lemma_single_artifact_wins(
    ds: Seq<CandidateDir>,
    r: Result<Chosen, ResolveError>,
    k: int,
)
    requires
        resolve_result_matches(ds, r),
        0 <= k < ds.len(),
        prefix_skipped(ds, k),
        ds[k].state is Listed,
        count_with_suffix(listing_names(ds[k]), artifact_suffix()) == 1,
        count_with_suffix(listing_names(ds[k]), source_suffix()) == 0,
    ensures
        r matches Ok(c) && c matches Chosen::Artifact { dir, file } && dir == k
            && artifact_chosen_at(ds, k, file as int)
            && (forall|j: int|
            0 <= j < listing_names(ds[k]).len() && j != file ==> !is_artifact_name(
                listing_names(ds[k])[j]@,
            )),
{
    lemma_decided_at_first_active(ds, r, k);
    if let Ok(Chosen::Artifact { dir, file }) = r {
        lemma_single_match_unique(listing_names(ds[k]), artifact_suffix(), file as int);
    }
}

/// If the first candidate directory that is not passed over holds no artifact
/// file and exactly one source file, the search settles on that source file;
/// the host then parses it and returns the serialized result.
pub proof fn lemma_single_source_wins(
    ds: Seq<CandidateDir>,
    r: Result<Chosen, ResolveError>,
    k: int,
)
    requires
        resolve_result_matches(ds, r),
        0 <= k < ds.len(),
        prefix_skipped(ds, k),
        ds[k].state is Listed,
        count_with_suffix(listing_names(ds[k]), artifact_suffix()) == 0,
        count_with_suffix(listing_names(ds[k]), source_suffix()) == 1,
    ensures
        r matches Ok(c) && c matches Chosen::Source { dir, file } && dir == k
            && source_chosen_at(ds, k, file as int)
            && (forall|j: int|
            0 <= j < listing_names(ds[k]).len() && j != file ==> !is_source_name(
                listing_names(ds[k])[j]@,
            )),
{
    lemma_decided_at_first_active(ds, r, k);
    if let Ok(Chosen::Source { dir, file }) = r {
        lemma_single_match_unique(listing_names(ds[k]), source_suffix(), file as int);
    }
}

/// A reachable candidate directory with more than one artifact file aborts
/// the whole search with an ambiguity error naming that directory, regardless
/// of what later candidates contain.
pub proof fn lemma_ambiguous_artifact_aborts(
    ds: Seq<CandidateDir>,
    r: Result<Chosen, ResolveError>,
    k: int,
)
    requires
        resolve_result_matches(ds, r),
        0 <= k < ds.len(),
        prefix_skipped(ds, k),
        ds[k].state is Listed,
        count_with_suffix(listing_names(ds[k]), artifact_suffix()) >= 2,
    ensures
        r matches Err(e) && e matches ResolveError::AmbiguousArtifact { dir }
            && dir@ == ds[k].path@,
{
    lemma_decided_at_first_active(ds, r, k);
}

/// A reachable candidate directory with no artifact file and more than one
/// source file aborts the whole search with an ambiguity error naming that
/// directory.
pub proof fn lemma_ambiguous_source_aborts(
    ds: Seq<CandidateDir>,
    r: Result<Chosen, ResolveError>,
    k: int,
)
    requires
        resolve_result_matches(ds, r),
        0 <= k < ds.len(),
        prefix_skipped(ds, k),
        ds[k].state is Listed,
        count_with_suffix(listing_names(ds[k]), artifact_suffix()) == 0,
        count_with_suffix(listing_names(ds[k]), source_suffix()) >= 2,
    ensures
        r matches Err(e) && e matches ResolveError::AmbiguousSource { dir }
            && dir@ == ds[k].path@,
{
    lemma_decided_at_first_active(ds, r, k);
}

/// When a candidate directory holds exactly one artifact file and exactly one
/// source file, the artifact wins: the search settles on the artifact file,
/// never on the source file — so the parser is never invoked.
pub proof fn lemma_artifact_beats_source(
    ds: Seq<CandidateDir>,
    r: Result<Chosen, ResolveError>,
    k: int,
)
    requires
        resolve_result_matches(ds, r),
        0 <= k < ds.len(),
        prefix_skipped(ds, k),
        ds[k].state is Listed,
        count_with_suffix(listing_names(ds[k]), artifact_suffix()) == 1,
        count_with_suffix(listing_names(ds[k]), source_suffix()) == 1,
    ensures
        r matches Ok(c) && c matches Chosen::Artifact { dir, file } && dir == k
            && artifact_chosen_at(ds, k, file as int),
        !(r matches Ok(c) && c is Source),
{
    lemma_decided_at_first_active(ds, r, k);
}

/// If every candidate directory is passed over — absent, or listed without a
/// qualifying file — and in particular if there are no candidates at all, the
/// search fails with `NotFound`.
pub proof fn lemma_exhausted_not_found(ds: Seq<CandidateDir>, r: Result<Chosen, ResolveError>)
    requires
        resolve_result_matches(ds, r),
        prefix_skipped(ds, ds.len() as int),
    ensures
        r matches Err(e) && e is NotFound,
{
    match r {
        Ok(Chosen::Artifact { dir, file }) => {
            assert(dir_skipped(ds[dir as int]));
        },
        Ok(Chosen::Source { dir, file }) => {
            assert(dir_skipped(ds[dir as int]));
        },
        Err(ResolveError::AmbiguousArtifact { dir }) => {
            let k = choose|k: int| ambiguous_artifact_at(ds, k) && dir@ == ds[k].path@;
            assert(dir_skipped(ds[k]));
        },
        Err(ResolveError::AmbiguousSource { dir }) => {
            let k = choose|k: int| ambiguous_source_at(ds, k) && dir@ == ds[k].path@;
            assert(dir_skipped(ds[k]));
        },
        Err(ResolveError::Io { path, message }) => {
            let k = choose|k: int| {
                &&& unreadable_at(ds, k)
                &&& path@ == ds[k].path@
                &&& message@ == ds[k].state->Unreadable_0@
            };
            assert(dir_skipped(ds[k]));
        },
        Err(ResolveError::NotFound) => {},
    }
}

/// The rendered JSON is a function of the parsed specification value alone:
/// equal specification values render to equal text. Together with the search
/// settling on a unique source file, the result of the source path is
/// deterministic once the parser's output is.
pub proof fn lemma_render_deterministic(a: usage::Spec, b: usage::Spec)
    requires
        a == b,
    ensures
        pretty_json_of(a) == pretty_json_of(b),
{
}

} // verus!
