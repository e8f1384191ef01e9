//! Matching text against a regular expression with backreferences.
use vstd::prelude::*;

verus! {

/// What a search for `pattern` in `text` gives: whether the pattern matches
/// somewhere in the text, or nothing when the pattern is no valid expression
/// or the search was given up.
pub uninterp spec fn search(pattern: Seq<char>, text: Seq<char>) -> Option<bool>;

/// Compiles `pattern` with `fancy_regex::Regex::new` and searches `text`
/// with `fancy_regex::Regex::is_match`. The result depends on the two
/// strings alone and is named [`search`]; an error of either call is handed
/// back as `None`.
#[verifier::external_body]
pub(crate) fn is_match(pattern: &str, text: &str) -> (found: Option<bool>)
    ensures
        found == search(pattern@, text@),
{
    match fancy_regex::Regex::new(pattern) {
        Ok(regex) => match regex.is_match(text) {
            Ok(found) => Some(found),
            Err(_) => None,
        },
        Err(_) => None,
    }
}

} // verus!
