//! Searching in strings.
use vstd::prelude::*;

verus! {

/// Whether `needle` stands in `haystack` at position `at`.
pub open spec fn occurs_at(haystack: Seq<char>, needle: Seq<char>, at: int) -> bool {
    &&& 0 <= at
    &&& at + needle.len() <= haystack.len()
    &&& haystack.subrange(at, at + needle.len()) == needle
}

/// Whether `needle` stands somewhere in `haystack`.
pub open spec fn occurs_in(haystack: Seq<char>, needle: Seq<char>) -> bool {
    exists|at: int| occurs_at(haystack, needle, at)
}

/// Whether `at` is the first position at which `needle` stands in
/// `haystack`.
pub open spec fn first_occurrence(haystack: Seq<char>, needle: Seq<char>, at: int) -> bool {
    &&& occurs_at(haystack, needle, at)
    &&& forall|earlier: int| 0 <= earlier < at ==> !occurs_at(haystack, needle, earlier)
}

/// What follows the first occurrence of `needle` in `haystack`.
pub open spec fn after_first(haystack: Seq<char>, needle: Seq<char>) -> Seq<char> {
    let at = choose|at: int| first_occurrence(haystack, needle, at);
    haystack.subrange(at + needle.len(), haystack.len() as int)
}

/// The first occurrence is unique, so what follows it is determined by any
/// position known to be the first.
pub proof fn after_first_at(haystack: Seq<char>, needle: Seq<char>, at: int)
    requires
        first_occurrence(haystack, needle, at),
    ensures
        after_first(haystack, needle) == haystack.subrange(
            at + needle.len(),
            haystack.len() as int,
        ),
{
    let chosen = choose|at: int| first_occurrence(haystack, needle, at);
    assert(first_occurrence(haystack, needle, chosen));
    assert(chosen == at);
}

/// `str::contains` with a string pattern: true exactly when the pattern
/// matches a sub-slice of the string.
#[verifier::external_body]
pub(crate) fn contains(haystack: &str, needle: &str) -> (found: bool)
    ensures
        found == occurs_in(haystack@, needle@),
{
    haystack.contains(needle)
}

/// `str::split_once` with a string delimiter: splits at the first occurrence
/// of the delimiter and hands back what stands before it and what follows
/// it, or nothing when the delimiter does not occur.
#[verifier::external_body]
pub(crate) fn split_once<'a>(haystack: &'a str, delimiter: &str) -> (parts: Option<
    (&'a str, &'a str),
>)
    ensures
        match parts {
            Some((before, after)) => {
                &&& first_occurrence(haystack@, delimiter@, before@.len() as int)
                &&& before@ == haystack@.subrange(0, before@.len() as int)
                &&& after@ == haystack@.subrange(
                    (before@.len() + delimiter@.len()) as int,
                    haystack@.len() as int,
                )
            },
            None => !occurs_in(haystack@, delimiter@),
        },
{
    haystack.split_once(delimiter)
}

/// `str::eq`: whether two string slices hold the same text.
#[verifier::external_body]
pub(crate) fn same_text(left: &str, right: &str) -> (same: bool)
    ensures
        same == (left@ == right@),
{
    left == right
}

} // verus!
