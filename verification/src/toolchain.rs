//! The release channel of the toolchain, and whether a command is meant for
//! it.

use crate::text::{chars_of, same, slice_text};
use vstd::prelude::*;
use vstd::string::*;

verus! {

/// `word` stands in `text` at index `at`.
pub open spec fn stands_at(text: Seq<char>, word: Seq<char>, at: int) -> bool {
    0 <= at && at + word.len() <= text.len() && text.subrange(at, at + word.len()) == word
}

/// `word` stands somewhere in `text`.
pub open spec fn mentions(text: Seq<char>, word: Seq<char>) -> bool {
    exists|at: int| stands_at(text, word, at)
}

/// The channel that the compiler names when asked for its version:
/// `nightly` where it says so, else `beta` where it says so, else none, which
/// is the stable channel.
pub open spec fn channel_of(version_line: Seq<char>) -> Seq<char> {
    if mentions(version_line, "nightly"@) {
        "nightly"@
    } else if mentions(version_line, "beta"@) {
        "beta"@
    } else {
        Seq::empty()
    }
}

/// A command runs unless it is meant for another channel only, or is to be
/// skipped on this one.
pub open spec fn is_selected(only: Option<Seq<char>>, skip: Option<Seq<char>>, version: Seq<char>) -> bool {
    !(only matches Some(wanted) && wanted != version) && !(skip matches Some(unwanted) && unwanted
        == version)
}

/// Whether `word` stands somewhere in `text`.
pub fn contains_word(text: &str, word: &str) -> (b: bool)
    ensures
        b == mentions(text@, word@),
{
    let whole = chars_of(text);
    let part = chars_of(word);
    let n: usize = whole.len();
    let m: usize = part.len();
    if m > n {
        return false;
    }
    let mut at: usize = 0;
    while at <= n - m
        invariant
            whole@ == text@,
            part@ == word@,
            n == whole@.len(),
            m == part@.len(),
            m <= n,
            at <= n - m + 1,
            forall|p: int| 0 <= p < at ==> !stands_at(text@, word@, p),
        decreases n - m + 1 - at,
    {
        let mut k: usize = 0;
        while k < m && whole[at + k] == part[k]
            invariant
                whole@ == text@,
                part@ == word@,
                n == whole@.len(),
                m == part@.len(),
                at + m <= n,
                k <= m,
                forall|j: int| 0 <= j < k ==> whole@[at + j] == part@[j],
            decreases m - k,
        {
            k += 1;
        }
        if k == m {
            proof {
                assert(text@.subrange(at as int, at + m) =~= word@);
                assert(stands_at(text@, word@, at as int));
            }
            return true;
        }
        proof {
            assert(text@.subrange(at as int, at + m)[k as int] == whole@[at + k]);
        }
        at += 1;
    }
    false
}

/// The channel of the toolchain, from what the compiler prints when asked
/// for its version.
pub fn channel(version_line: &str) -> (name: String)
    ensures
        name@ == channel_of(version_line@),
{
    if contains_word(version_line, "nightly") {
        "nightly".to_owned()
    } else if contains_word(version_line, "beta") {
        "beta".to_owned()
    } else {
        String::new()
    }
}

/// Whether a command runs on the channel `version`, where `only` names the
/// one channel it is meant for and `skip` the one it is not.
pub fn selected(only: Option<&str>, skip: Option<&str>, version: &str) -> (b: bool)
    ensures
        b == is_selected(slice_text(only), slice_text(skip), version@),
{
    let wrong_channel = match only {
        Some(wanted) => !same(wanted, version),
        None => false,
    };
    let skipped = match skip {
        Some(unwanted) => same(unwanted, version),
        None => false,
    };
    !wrong_channel && !skipped
}

} // verus!
