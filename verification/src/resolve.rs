//! The search across the ordered candidate directories: skip absent and
//! empty-handed candidates, abort on the first ambiguity or unreadable
//! directory, settle on the first qualifying file.

use vstd::prelude::*;
use crate::scan::DirOutcome;
use crate::scan::scan_dir;
use crate::suffix::artifact_suffix;
use crate::suffix::count_with_suffix;
use crate::suffix::is_artifact_name;
use crate::suffix::is_source_name;
use crate::suffix::source_suffix;

verus! {

/// What the host observed when it tried to list one candidate directory.
#[derive(Debug)]
pub enum DirListing {
    /// The path does not exist or is not a directory.
    Missing,
    /// The directory exists but could not be read; carries the I/O error's text.
    Unreadable(String),
    /// The file names of the directory's entries.
    Listed(Vec<String>),
}

/// One candidate directory: its path, kept for error reporting, and what
/// listing it produced.
#[derive(Debug)]
pub struct CandidateDir {
    pub path: String,
    pub state: DirListing,
}

/// The file the search settled on. `dir` indexes the candidate list, `file`
/// the chosen entry of that candidate's listing.
#[derive(Debug)]
pub enum Chosen {
    /// A pre-rendered artifact: read this file verbatim.
    Artifact { dir: usize, file: usize },
    /// A source definition: parse this file, then serialize the result.
    Source { dir: usize, file: usize },
}

/// Why resolution failed.
#[derive(Debug)]
pub enum ResolveError {
    /// More than one artifact file in the named directory.
    AmbiguousArtifact { dir: String },
    /// No artifact file but more than one source file in the named directory.
    AmbiguousSource { dir: String },
    /// A directory or file could not be read.
    Io { path: String, message: String },
    /// No candidate directory held a qualifying file.
    NotFound,
}

/// The entries a listed candidate holds.
pub open spec fn listing_names(d: CandidateDir) -> Seq<String> {
    d.state->Listed_0@
}

/// A candidate the search passes over: absent, or listed but without a
/// single artifact or source file.
pub open spec fn dir_skipped(d: CandidateDir) -> bool {
    ||| d.state is Missing
    ||| {
        &&& d.state is Listed
        &&& count_with_suffix(listing_names(d), artifact_suffix()) == 0
        &&& count_with_suffix(listing_names(d), source_suffix()) == 0
    }
}

/// Every candidate before position `k` is passed over.
pub open spec fn prefix_skipped(ds: Seq<CandidateDir>, k: int) -> bool {
    forall|j: int| 0 <= j < k ==> dir_skipped(ds[j])
}

/// Candidate `dir` is the first one not passed over, and it holds exactly one
/// artifact file, at position `file` of its listing.
pub open spec fn artifact_chosen_at(ds: Seq<CandidateDir>, dir: int, file: int) -> bool {
    &&& 0 <= dir < ds.len()
    &&& prefix_skipped(ds, dir)
    &&& ds[dir].state is Listed
    &&& count_with_suffix(listing_names(ds[dir]), artifact_suffix()) == 1
    &&& 0 <= file < listing_names(ds[dir]).len()
    &&& is_artifact_name(listing_names(ds[dir])[file]@)
    &&& forall|j: int| 0 <= j < file ==> !is_artifact_name(listing_names(ds[dir])[j]@)
}

/// Candidate `dir` is the first one not passed over, and it holds no artifact
/// file and exactly one source file, at position `file` of its listing.
pub open spec fn source_chosen_at(ds: Seq<CandidateDir>, dir: int, file: int) -> bool {
    &&& 0 <= dir < ds.len()
    &&& prefix_skipped(ds, dir)
    &&& ds[dir].state is Listed
    &&& count_with_suffix(listing_names(ds[dir]), artifact_suffix()) == 0
    &&& count_with_suffix(listing_names(ds[dir]), source_suffix()) == 1
    &&& 0 <= file < listing_names(ds[dir]).len()
    &&& is_source_name(listing_names(ds[dir])[file]@)
    &&& forall|j: int| 0 <= j < file ==> !is_source_name(listing_names(ds[dir])[j]@)
}

/// Candidate `k` is the first one not passed over, and it holds more than one
/// artifact file.
pub open spec fn ambiguous_artifact_at(ds: Seq<CandidateDir>, k: int) -> bool {
    &&& 0 <= k < ds.len()
    &&& prefix_skipped(ds, k)
    &&& ds[k].state is Listed
    &&& count_with_suffix(listing_names(ds[k]), artifact_suffix()) >= 2
}

/// Candidate `k` is the first one not passed over, and it holds no artifact
/// file but more than one source file.
pub open spec fn ambiguous_source_at(ds: Seq<CandidateDir>, k: int) -> bool {
    &&& 0 <= k < ds.len()
    &&& prefix_skipped(ds, k)
    &&& ds[k].state is Listed
    &&& count_with_suffix(listing_names(ds[k]), artifact_suffix()) == 0
    &&& count_with_suffix(listing_names(ds[k]), source_suffix()) >= 2
}

/// Candidate `k` is the first one not passed over, and it could not be read.
pub open spec fn unreadable_at(ds: Seq<CandidateDir>, k: int) -> bool {
    &&& 0 <= k < ds.len()
    &&& prefix_skipped(ds, k)
    &&& ds[k].state is Unreadable
}

/// Exact relation between the candidate list and the result of the search.
pub open spec fn resolve_result_matches(
    ds: Seq<CandidateDir>,
    r: Result<Chosen, ResolveError>,
) -> bool {
    match r {
        Ok(Chosen::Artifact { dir, file }) => artifact_chosen_at(ds, dir as int, file as int),
        Ok(Chosen::Source { dir, file }) => source_chosen_at(ds, dir as int, file as int),
        Err(ResolveError::AmbiguousArtifact { dir }) => exists|k: int|
            ambiguous_artifact_at(ds, k) && dir@ == ds[k].path@,
        Err(ResolveError::AmbiguousSource { dir }) => exists|k: int|
            ambiguous_source_at(ds, k) && dir@ == ds[k].path@,
        Err(ResolveError::Io { path, message }) => exists|k: int| {
            &&& unreadable_at(ds, k)
            &&& path@ == ds[k].path@
            &&& message@ == ds[k].state->Unreadable_0@
        },
        Err(ResolveError::NotFound) => prefix_skipped(ds, ds.len() as int),
    }
}

/// Search the candidate directories in order. A candidate that is absent or
/// holds no qualifying file is passed over; the first candidate that is
/// unreadable, ambiguous, or holds a qualifying file decides the result, and
/// an artifact file wins over a source file within that candidate.
pub fn resolve(dirs: &Vec<CandidateDir>) -> (r: Result<Chosen, ResolveError>)
    ensures
        resolve_result_matches(dirs@, r),
{
    let n = dirs.len();
    for i in 0..n
        invariant
            n == dirs@.len(),
            prefix_skipped(dirs@, i as int),
    {
        match &dirs[i].state {
            DirListing::Missing => {
                proof {
                    assert(dir_skipped(dirs@[i as int]));
                }
            },
            DirListing::Unreadable(m) => {
                proof {
                    assert(unreadable_at(dirs@, i as int));
                }
                return Err(ResolveError::Io { path: dirs[i].path.clone(), message: m.clone() });
            },
            DirListing::Listed(entries) => {
                match scan_dir(entries) {
                    DirOutcome::Artifact(f) => {
                        proof {
                            assert(artifact_chosen_at(dirs@, i as int, f as int));
                        }
                        return Ok(Chosen::Artifact { dir: i, file: f });
                    },
                    DirOutcome::Source(f) => {
                        proof {
                            assert(source_chosen_at(dirs@, i as int, f as int));
                        }
                        return Ok(Chosen::Source { dir: i, file: f });
                    },
                    DirOutcome::MultipleArtifacts => {
                        proof {
                            assert(ambiguous_artifact_at(dirs@, i as int));
                        }
                        return Err(ResolveError::AmbiguousArtifact { dir: dirs[i].path.clone() });
                    },
                    DirOutcome::MultipleSources => {
                        proof {
                            assert(ambiguous_source_at(dirs@, i as int));
                        }
                        return Err(ResolveError::AmbiguousSource { dir: dirs[i].path.clone() });
                    },
                    DirOutcome::NoMatch => {
                        proof {
                            assert(dir_skipped(dirs@[i as int]));
                        }
                    },
                }
            },
        }
    }
    Err(ResolveError::NotFound)
}

} // verus!
