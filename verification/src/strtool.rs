//! Small verified helpers over string slices: equality of views and the
//! position of the last occurrence of a character.

use vstd::prelude::*;
use vstd::seq_lib::*;
use vstd::string::StrSliceExecFns;

verus! {

/// The last occurrence of `c` in `s` is at `i`: nothing to its right is `c`.
pub proof fn lemma_index_of_last_at(s: Seq<char>, c: char, i: int)
    requires
        0 <= i < s.len(),
        s[i] == c,
        forall|j: int| i < j < s.len() ==> s[j] != c,
    ensures
        s.index_of_last(c) == Some(i),
{
    assert(s.contains(c)) by {
        assert(s[i] == c);
    }
    s.index_of_last_ensures(c);
    let k = s.index_of_last(c).unwrap();
    if k < i {
        assert(s[i] != c);
    }
    if i < k {
        assert(s[k] != c);
    }
}

/// A character that occurs nowhere in `s` has no last occurrence.
pub proof fn lemma_index_of_last_absent(s: Seq<char>, c: char)
    requires
        forall|j: int| 0 <= j < s.len() ==> s[j] != c,
    ensures
        s.index_of_last(c) is None,
{
    s.index_of_last_ensures(c);
    if s.index_of_last(c) is Some {
        let k = s.index_of_last(c).unwrap();
        assert(s[k] != c);
    }
}

/// Character-for-character equality of two string slices, decided over their
/// views.
pub fn str_eq(a: &str, b: &str) -> (r: bool)
    ensures
        r <==> a@ == b@,
{
    let alen = a.unicode_len();
    let blen = b.unicode_len();
    if alen != blen {
        return false;
    }
    let mut i: usize = 0;
    while i < alen
        invariant
            i <= alen,
            alen == a@.len(),
            alen == b@.len(),
            forall|k: int| 0 <= k < i ==> a@[k] == b@[k],
        decreases alen - i,
    {
        if a.get_char(i) != b.get_char(i) {
            return false;
        }
        i += 1;
    }
    proof {
        assert(a@ =~= b@);
    }
    true
}

/// Index of the last occurrence of `c` in `s`, as `Seq::index_of_last` gives
/// it over the view.
pub fn find_last(s: &str, c: char) -> (r: Option<usize>)
    ensures
        match r {
            Some(i) => i < s@.len() && s@.index_of_last(c) == Some(i as int),
            None => s@.index_of_last(c) is None,
        },
{
    let len = s.unicode_len();
    let mut i: usize = len;
    while i > 0
        invariant
            i <= len,
            len == s@.len(),
            forall|k: int| i <= k < len ==> s@[k] != c,
        decreases i,
    {
        let ch = s.get_char(i - 1);
        if ch == c {
            proof {
                lemma_index_of_last_at(s@, c, i - 1);
            }
            return Some(i - 1);
        }
        i -= 1;
    }
    proof {
        lemma_index_of_last_absent(s@, c);
    }
    None
}

} // verus!
