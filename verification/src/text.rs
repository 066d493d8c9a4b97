//! Strings as sequences of characters: the few operations on them that the
//! rest of the library is built from, each with its meaning stated.

use vstd::prelude::*;
use vstd::string::*;

verus! {

/// The texts of a list of strings, in order.
pub open spec fn texts(items: Seq<String>) -> Seq<Seq<char>> {
    Seq::new(items.len(), |i: int| items[i]@)
}

/// The text of a string that may be missing.
pub open spec fn text_of(item: Option<String>) -> Option<Seq<char>> {
    match item {
        Some(s) => Some(s@),
        None => None,
    }
}

/// The text of a string slice that may be missing.
pub open spec fn slice_text(item: Option<&str>) -> Option<Seq<char>> {
    match item {
        Some(s) => Some(s@),
        None => None,
    }
}

/// The characters of `s`.
pub fn chars_of(s: &str) -> (v: Vec<char>)
    ensures
        v@ == s@,
{
    let mut v: Vec<char> = Vec::new();
    for c in it: s.chars()
        invariant
            v@ == it.seq().take(it.index() as int),
            it.seq() == s@,
    {
        v.push(c);
    }
    v
}

/// Whether `s` begins with `prefix`.
pub fn starts_with(s: &str, prefix: &str) -> (b: bool)
    ensures
        b == prefix@.is_prefix_of(s@),
{
    let whole = chars_of(s);
    let head = chars_of(prefix);
    let m: usize = head.len();
    if m > whole.len() {
        return false;
    }
    let mut k: usize = 0;
    while k < m
        invariant
            whole@ == s@,
            head@ == prefix@,
            m == head@.len(),
            m <= whole@.len(),
            k <= m,
            forall|j: int| 0 <= j < k ==> whole@[j] == head@[j],
        decreases m - k,
    {
        if whole[k] != head[k] {
            proof {
                assert(whole@.subrange(0, m as int)[k as int] == whole@[k as int]);
            }
            return false;
        }
        k += 1;
    }
    proof {
        assert(head@ =~= whole@.subrange(0, m as int));
    }
    true
}

/// Whether `a` and `b` are the same text.
pub fn same(a: &str, b: &str) -> (r: bool)
    ensures
        r == (a@ == b@),
{
    let x = chars_of(a);
    let y = chars_of(b);
    let n: usize = x.len();
    if n != y.len() {
        return false;
    }
    let mut k: usize = 0;
    while k < n
        invariant
            x@ == a@,
            y@ == b@,
            n == x@.len(),
            n == y@.len(),
            k <= n,
            forall|j: int| 0 <= j < k ==> x@[j] == y@[j],
        decreases n - k,
    {
        if x[k] != y[k] {
            return false;
        }
        k += 1;
    }
    proof {
        assert(x@ =~= y@);
    }
    true
}

/// `a` followed by `b`.
pub fn join(a: &str, b: &str) -> (r: String)
    ensures
        r@ == a@ + b@,
{
    a.to_owned().concat(b)
}

/// A copy of a string that may be missing.
pub fn copy_text(item: &Option<String>) -> (out: Option<String>)
    ensures
        text_of(out) == text_of(*item),
{
    match item {
        Some(s) => Some(s.clone()),
        None => None,
    }
}

/// Whether `word` is one of `list`.
pub fn contains(list: &[String], word: &str) -> (b: bool)
    ensures
        b == texts(list@).contains(word@),
{
    let n: usize = list.len();
    let mut k: usize = 0;
    while k < n
        invariant
            n == list@.len(),
            k <= n,
            forall|j: int| 0 <= j < k ==> texts(list@)[j] != word@,
        decreases n - k,
    {
        if same(list[k].as_str(), word) {
            proof {
                assert(texts(list@)[k as int] == word@);
            }
            return true;
        }
        k += 1;
    }
    false
}

/// A copy of `list`.
pub fn copy_all(list: &[String]) -> (out: Vec<String>)
    ensures
        texts(out@) == texts(list@),
{
    let n: usize = list.len();
    let mut out: Vec<String> = Vec::new();
    let mut k: usize = 0;
    while k < n
        invariant
            n == list@.len(),
            k <= n,
            out@.len() == k,
            forall|j: int| 0 <= j < k ==> out@[j]@ == list@[j]@,
        decreases n - k,
    {
        out.push(list[k].clone());
        k += 1;
    }
    proof {
        assert(texts(out@) =~= texts(list@));
    }
    out
}

} // verus!
