//! Regular-expression matching, done by the `regex` crate.
use vstd::prelude::*;

verus! {

/// Whether `regex::Regex::new` accepts the pattern.
pub uninterp spec fn regex_compiles(pattern: Seq<char>) -> bool;

/// Whether `regex::Regex::is_match` finds a match of the pattern anywhere in
/// the haystack.
pub uninterp spec fn regex_is_match(pattern: Seq<char>, haystack: Seq<char>) -> bool;

/// Compiles `pattern` once with `regex::Regex::new` and tests each line with
/// `Regex::is_match`. The contract claims that the result is `None` exactly
/// when the pattern does not compile, and otherwise holds, line by line, the
/// named outcome of `is_match`; what a pattern matches is left to the crate.
#[verifier::external_body]
pub(crate) fn match_lines(pattern: &str, lines: &Vec<String>) -> (outcome: Option<Vec<bool>>)
    ensures
        match outcome {
            Some(m) => {
                &&& regex_compiles(pattern@)
                &&& m@.len() == lines@.len()
                &&& forall|i: int|
                    0 <= i < lines@.len() ==> m@[i] == regex_is_match(pattern@, #[trigger] lines@[i]@)
            },
            None => !regex_compiles(pattern@),
        },
{
    let re = regex::Regex::new(pattern).ok()?;
    Some(lines.iter().map(|line| re.is_match(line)).collect())
}

} // verus!
