//! Scanning one directory listing: does it hold exactly one artifact file,
//! exactly one source file, too many of either, or nothing at all?

use vstd::prelude::*;
use crate::suffix::artifact_suffix;
use crate::suffix::count_with_suffix;
use crate::suffix::is_artifact_name;
use crate::suffix::is_source_name;
use crate::suffix::lemma_count_le_len;
use crate::suffix::lemma_count_zero;
use crate::suffix::source_suffix;
use crate::suffix::str_has_suffix;

verus! {

/// What scanning a single directory listing yields.
#[derive(Debug)]
pub enum DirOutcome {
    /// Exactly one artifact file; its index in the listing.
    Artifact(usize),
    /// No artifact file and exactly one source file; its index in the listing.
    Source(usize),
    /// More than one artifact file: ambiguous, the search must abort.
    MultipleArtifacts,
    /// No artifact file but more than one source file: ambiguous.
    MultipleSources,
    /// Neither an artifact nor a source file: fall through to the next candidate.
    NoMatch,
}

/// Exact relation between a directory listing and the outcome of scanning it.
/// The index returned with a match is the first (and, the count being one,
/// only) entry of its kind.
pub open spec fn scan_outcome_matches(names: Seq<String>, out: DirOutcome) -> bool {
    match out {
        DirOutcome::Artifact(f) => {
            &&& count_with_suffix(names, artifact_suffix()) == 1
            &&& f < names.len()
            &&& is_artifact_name(names[f as int]@)
            &&& forall|j: int| 0 <= j < f ==> !is_artifact_name(names[j]@)
        },
        DirOutcome::Source(f) => {
            &&& count_with_suffix(names, artifact_suffix()) == 0
            &&& count_with_suffix(names, source_suffix()) == 1
            &&& f < names.len()
            &&& is_source_name(names[f as int]@)
            &&& forall|j: int| 0 <= j < f ==> !is_source_name(names[j]@)
        },
        DirOutcome::MultipleArtifacts => count_with_suffix(names, artifact_suffix()) >= 2,
        DirOutcome::MultipleSources => {
            &&& count_with_suffix(names, artifact_suffix()) == 0
            &&& count_with_suffix(names, source_suffix()) >= 2
        },
        DirOutcome::NoMatch => {
            &&& count_with_suffix(names, artifact_suffix()) == 0
            &&& count_with_suffix(names, source_suffix()) == 0
        },
    }
}

/// Scan the entries of one directory. An artifact file takes precedence over
/// a source file; more than one file of the kind under consideration is
/// ambiguous, not a silent pick.
pub fn scan_dir(entries: &Vec<String>) -> (out: DirOutcome)
    ensures
        scan_outcome_matches(entries@, out),
{
    let ghost ns = entries@;
    let mut artifact_count: usize = 0;
    let mut artifact_first: usize = 0;
    let mut source_count: usize = 0;
    let mut source_first: usize = 0;
    let n = entries.len();
    for i in 0..n
        invariant
            n == ns.len(),
            ns == entries@,
            artifact_count as nat == count_with_suffix(ns.take(i as int), artifact_suffix()),
            source_count as nat == count_with_suffix(ns.take(i as int), source_suffix()),
            artifact_count > 0 ==> {
                &&& artifact_first < i
                &&& is_artifact_name(ns[artifact_first as int]@)
                &&& forall|j: int| 0 <= j < artifact_first ==> !is_artifact_name(ns[j]@)
            },
            source_count > 0 ==> {
                &&& source_first < i
                &&& is_source_name(ns[source_first as int]@)
                &&& forall|j: int| 0 <= j < source_first ==> !is_source_name(ns[j]@)
            },
    {
        proof {
            lemma_count_le_len(ns.take(i as int), artifact_suffix());
            lemma_count_le_len(ns.take(i as int), source_suffix());
            assert(ns.take(i as int).len() == i);
        }
        let name = &entries[i];
        if str_has_suffix(name.as_str(), "cliq.json") {
            if artifact_count == 0 {
                artifact_first = i;
                proof {
                    lemma_count_zero(ns.take(i as int), artifact_suffix());
                    assert(forall|j: int| 0 <= j < i ==> ns.take(i as int)[j] == ns[j]);
                }
            }
            artifact_count = artifact_count + 1;
        }
        if str_has_suffix(name.as_str(), "usage.kdl") {
            if source_count == 0 {
                source_first = i;
                proof {
                    lemma_count_zero(ns.take(i as int), source_suffix());
                    assert(forall|j: int| 0 <= j < i ==> ns.take(i as int)[j] == ns[j]);
                }
            }
            source_count = source_count + 1;
        }
        proof {
            assert(ns.take(i + 1).drop_last() =~= ns.take(i as int));
            assert(ns.take(i + 1).last() == ns[i as int]);
        }
    }
    proof {
        assert(ns.take(n as int) =~= ns);
    }
    if artifact_count > 1 {
        DirOutcome::MultipleArtifacts
    } else if artifact_count == 1 {
        DirOutcome::Artifact(artifact_first)
    } else if source_count > 1 {
        DirOutcome::MultipleSources
    } else if source_count == 1 {
        DirOutcome::Source(source_first)
    } else {
        DirOutcome::NoMatch
    }
}

} // verus!
