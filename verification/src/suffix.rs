//! File-name suffixes that mark the two kinds of specification file, and
//! counting how many entries of a directory listing carry such a suffix.

use vstd::prelude::*;

verus! {

/// Suffix of a pre-rendered JSON artifact's file name.
pub open spec fn artifact_suffix() -> Seq<char> {
    "cliq.json"@
}

/// Suffix of a source definition's file name.
pub open spec fn source_suffix() -> Seq<char> {
    "usage.kdl"@
}

/// Holds when `name` ends with `suffix`.
pub open spec fn has_suffix(name: Seq<char>, suffix: Seq<char>) -> bool {
    suffix.is_suffix_of(name)
}

/// An artifact file name.
pub open spec fn is_artifact_name(name: Seq<char>) -> bool {
    has_suffix(name, artifact_suffix())
}

/// A source file name.
pub open spec fn is_source_name(name: Seq<char>) -> bool {
    has_suffix(name, source_suffix())
}

/// Relies on `str::ends_with`: returns true exactly when the string slice
/// ends with the given suffix.
#[verifier::external_body]
pub(crate) fn str_has_suffix(name: &str, suffix: &str) -> (r: bool)
    ensures
        r == has_suffix(name@, suffix@),
{
    name.ends_with(suffix)
}

/// How many of `names` end with `suffix`.
pub open spec fn count_with_suffix(names: Seq<String>, suffix: Seq<char>) -> nat
    decreases names.len(),
{
    if names.len() == 0 {
        0
    } else {
        count_with_suffix(names.drop_last(), suffix) + (if has_suffix(
            names.last()@,
            suffix,
        ) {
            1nat
        } else {
            0nat
        })
    }
}

/// A listing never holds more suffixed entries than entries.
pub proof fn lemma_count_le_len(names: Seq<String>, suffix: Seq<char>)
    ensures
        count_with_suffix(names, suffix) <= names.len(),
    decreases names.len(),
{
    if names.len() > 0 {
        lemma_count_le_len(names.drop_last(), suffix);
    }
}

/// Two distinct suffixed entries put the count at two or more.
pub proof fn lemma_matching_pair_counts_two(
    names: Seq<String>,
    suffix: Seq<char>,
    a: int,
    b: int,
)
    requires
        0 <= a < b < names.len(),
        has_suffix(names[a]@, suffix),
        has_suffix(names[b]@, suffix),
    ensures
        count_with_suffix(names, suffix) >= 2,
    decreases names.len(),
{
    assert(names.drop_last()[a] == names[a]);
    if b == names.len() - 1 {
        lemma_count_zero(names.drop_last(), suffix);
        assert(count_with_suffix(names.drop_last(), suffix) >= 1);
    } else {
        assert(names.drop_last()[b] == names[b]);
        lemma_matching_pair_counts_two(names.drop_last(), suffix, a, b);
    }
}

/// When the count is one, the suffixed entry at `f` is the only one.
pub proof fn lemma_single_match_unique(names: Seq<String>, suffix: Seq<char>, f: int)
    requires
        0 <= f < names.len(),
        has_suffix(names[f]@, suffix),
        count_with_suffix(names, suffix) == 1,
    ensures
        forall|j: int|
            0 <= j < names.len() && j != f ==> !has_suffix(names[j]@, suffix),
{
    assert forall|j: int|
        0 <= j < names.len() && j != f implies !has_suffix(names[j]@, suffix) by {
        if has_suffix(names[j]@, suffix) {
            if j < f {
                lemma_matching_pair_counts_two(names, suffix, j, f);
            } else {
                lemma_matching_pair_counts_two(names, suffix, f, j);
            }
            assert(false);
        }
    }
}

/// The count is zero exactly when no entry carries the suffix.
pub proof fn lemma_count_zero(names: Seq<String>, suffix: Seq<char>)
    ensures
        (count_with_suffix(names, suffix) == 0) <==> (forall|j: int|
            0 <= j < names.len() ==> !has_suffix(names[j]@, suffix)),
    decreases names.len(),
{
    if names.len() > 0 {
        lemma_count_zero(names.drop_last(), suffix);
        assert(forall|j: int|
            0 <= j < names.len() - 1 ==> names.drop_last()[j] == names[j]);
        assert(names.last() == names[names.len() - 1]);
    }
}

} // verus!
