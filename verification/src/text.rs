//! Building owned strings out of pieces, with the result stated over the
//! character sequences of the pieces.

use vstd::prelude::*;
use vstd::string::*;

verus! {

/// The two pieces, one after the other.
pub fn join2(a: &str, b: &str) -> (r: String)
    ensures
        r@ == a@ + b@,
{
    let mut r = String::from_str(a);
    r.append(b);
    r
}

/// The three pieces in order.
pub fn join3(a: &str, b: &str, c: &str) -> (r: String)
    ensures
        r@ == a@ + b@ + c@,
{
    let mut r = join2(a, b);
    r.append(c);
    r
}

/// The four pieces in order.
pub fn join4(a: &str, b: &str, c: &str, d: &str) -> (r: String)
    ensures
        r@ == a@ + b@ + c@ + d@,
{
    let mut r = join3(a, b, c);
    r.append(d);
    r
}

/// The five pieces in order.
pub fn join5(a: &str, b: &str, c: &str, d: &str, e: &str) -> (r: String)
    ensures
        r@ == a@ + b@ + c@ + d@ + e@,
{
    let mut r = join4(a, b, c, d);
    r.append(e);
    r
}

/// What an optional text stands for as a sequence: itself, or nothing.
pub open spec fn text_or_empty(t: Option<Seq<char>>) -> Seq<char> {
    match t {
        Some(s) => s,
        None => Seq::empty(),
    }
}

/// The view of an optional string.
pub open spec fn opt_text(t: Option<String>) -> Option<Seq<char>> {
    match t {
        Some(s) => Some(s@),
        None => None,
    }
}

/// An owned copy of an optional string.
pub fn copy_opt(t: &Option<String>) -> (r: Option<String>)
    ensures
        opt_text(r) == opt_text(*t),
{
    match t {
        Some(s) => Some(s.clone()),
        None => None,
    }
}

/// The place of the first `mark` of a text at or after `from`, if there is
/// one.
pub open spec fn first_of(s: Seq<char>, mark: char, from: int) -> Option<int>
    decreases s.len() - from,
{
    if from < 0 || from >= s.len() {
        None
    } else if s[from] == mark {
        Some(from)
    } else {
        first_of(s, mark, from + 1)
    }
}

/// What stands before the first `mark` of a text and what stands after it;
/// none for a text without `mark`.
pub open spec fn parts_at(s: Seq<char>, mark: char) -> Option<(Seq<char>, Seq<char>)> {
    match first_of(s, mark, 0) {
        Some(k) => Some((s.subrange(0, k), s.subrange(k + 1, s.len() as int))),
        None => None,
    }
}

/// Where `first_of` finds a place, the mark stands there and none stands
/// between `from` and it; where it finds none, there is no mark from `from`
/// on.
pub proof fn first_of_is_first(s: Seq<char>, mark: char, from: int)
    requires
        0 <= from,
    ensures
        match first_of(s, mark, from) {
            Some(k) => from <= k < s.len() && s[k] == mark && forall|j: int|
                from <= j < k ==> s[j] != mark,
            None => forall|j: int| from <= j < s.len() ==> s[j] != mark,
        },
    decreases s.len() - from,
{
    if from < s.len() && s[from] != mark {
        first_of_is_first(s, mark, from + 1);
    }
}

/// Splits a text at its first `mark`, which belongs to neither part.
pub fn split_at_first(text: &str, mark: char) -> (r: Option<(String, String)>)
    ensures
        match r {
            Some(p) => parts_at(text@, mark) == Some((p.0@, p.1@)),
            None => parts_at(text@, mark) is None,
        },
{
    let n = text.unicode_len();
    let mut i: usize = 0;
    while i < n
        invariant
            n == text@.len(),
            i <= n,
            first_of(text@, mark, 0) == first_of(text@, mark, i as int),
        decreases n - i,
    {
        if text.get_char(i) == mark {
            let before = String::from_str(text.substring_char(0, i));
            let after = String::from_str(text.substring_char(i + 1, n));
            return Some((before, after));
        }
        i = i + 1;
    }
    None
}

} // verus!
