//! Finding the test binaries that a test build has announced.
//!
//! The lines are found by a regular expression, and matching is the work of
//! the `regex` crate: what it returns is taken on trust and given a name, and
//! everything after the call is verified against that name.

use crate::text::{text_of, texts};
use vstd::prelude::*;
use vstd::string::*;

verus! {

/// Why no list of test binaries could be had from the output of a build.
#[derive(Debug, Clone, Copy, PartialEq, Eq, Structural)]
pub enum ScanError {
    /// The pattern was not accepted as a regular expression.
    Pattern,
    /// A line matched without a name.
    Group,
}

/// The error of the `regex` crate, carried through unread.
#[verifier::external_type_specification]
#[verifier::external_body]
pub struct ExRegexError(regex::Error);

/// What matching a regular expression yields: nothing where `pattern` does
/// not compile; else, for each match in `haystack` from left to right, no two
/// overlapping, the text that capture group `group` matched, or nothing where
/// the pattern has no such group or the group took no part in that match.
pub uninterp spec fn regex_captures(pattern: Seq<char>, haystack: Seq<char>, group: usize) -> Option<
    Seq<Option<Seq<char>>>,
>;

/// The texts of a list of strings of which some may be missing.
pub open spec fn group_texts(items: Seq<Option<String>>) -> Seq<Option<Seq<char>>> {
    Seq::new(items.len(), |i: int| text_of(items[i]))
}

/// Compiles `pattern` with `regex::Regex::new`, walks the matches in
/// `haystack` with `Regex::captures_iter` and copies from each what
/// `Captures::get` holds for `group`. The contract claims only that the
/// outcome is the one that bears the name [`regex_captures`], an error
/// standing for a pattern that does not compile; it says nothing of what
/// matches.
#[verifier::external_body]
fn captures(pattern: &str, haystack: &str, group: usize) -> (found: Result<
    Vec<Option<String>>,
    regex::Error,
>)
    ensures
        found matches Ok(list) ==> regex_captures(pattern@, haystack@, group) == Some(
            group_texts(list@),
        ),
        found is Err ==> regex_captures(pattern@, haystack@, group) is None,
{
    let compiled = regex::Regex::new(pattern)?;
    let matches = compiled.captures_iter(haystack);
    Ok(matches.map(|found| found.get(group).map(|part| part.as_str().to_owned())).collect())
}

/// The pattern of a line that announces a test binary: five spaces,
/// `Running target/debug/`, then the name of the binary up to the end of the
/// line.
pub open spec fn running_pattern() -> Seq<char> {
    "(?m)^     Running target/debug/(.*)$"@
}

/// Every match has a name.
pub open spec fn all_named(groups: Seq<Option<Seq<char>>>) -> bool {
    forall|i: int| 0 <= i < groups.len() ==> (#[trigger] groups[i]) is Some
}

/// The names that the matches hold, in the order of the matches, where the
/// pattern compiled and every match has one.
pub open spec fn names_of(found: Option<Seq<Option<Seq<char>>>>) -> Result<
    Seq<Seq<char>>,
    ScanError,
> {
    match found {
        None => Err(ScanError::Pattern),
        Some(groups) => if all_named(groups) {
            Ok(Seq::new(groups.len(), |i: int| groups[i]->0))
        } else {
            Err(ScanError::Group)
        },
    }
}

/// The test binaries that the output of a build announces, in the order of
/// their lines, each as often as it is announced.
pub open spec fn binaries_in(output: Seq<char>) -> Result<Seq<Seq<char>>, ScanError> {
    names_of(regex_captures(running_pattern(), output, 1))
}

/// The names of a list, in the view of a result.
pub open spec fn names_view(names: Result<Vec<String>, ScanError>) -> Result<
    Seq<Seq<char>>,
    ScanError,
> {
    match names {
        Ok(list) => Ok(texts(list@)),
        Err(e) => Err(e),
    }
}

/// The names that a list of matches holds: all of them in order, or an error
/// where one match has none.
pub fn collect_names(groups: &Vec<Option<String>>) -> (names: Result<Vec<String>, ScanError>)
    ensures
        names_view(names) == names_of(Some(group_texts(groups@))),
{
    let ghost given = group_texts(groups@);
    let n: usize = groups.len();
    let mut names: Vec<String> = Vec::new();
    let mut k: usize = 0;
    while k < n
        invariant
            given == group_texts(groups@),
            n == groups@.len(),
            k <= n,
            names@.len() == k,
            forall|j: int| 0 <= j < k ==> (#[trigger] given[j]) == Some(names@[j]@),
        decreases n - k,
    {
        match &groups[k] {
            Some(name) => {
                names.push(name.clone());
            },
            None => {
                proof {
                    assert(given[k as int] is None);
                }
                return Err(ScanError::Group);
            },
        }
        k += 1;
    }
    proof {
        assert(all_named(given));
        assert(texts(names@) =~= Seq::new(given.len(), |j: int| given[j]->0));
    }
    Ok(names)
}

/// The texts that the first group of `pattern` matched in `text`, one for
/// each match, in the order of the matches.
pub fn first_groups(pattern: &str, text: &str) -> (names: Result<Vec<String>, ScanError>)
    ensures
        names_view(names) == names_of(regex_captures(pattern@, text@, 1)),
{
    match captures(pattern, text, 1) {
        Ok(groups) => collect_names(&groups),
        Err(_) => Err(ScanError::Pattern),
    }
}

/// The test binaries that the output of a build announces.
pub fn test_binaries(output: &str) -> (names: Result<Vec<String>, ScanError>)
    ensures
        names_view(names) == binaries_in(output@),
{
    first_groups("(?m)^     Running target/debug/(.*)$", output)
}

} // verus!
