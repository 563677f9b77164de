//! Verified helpers over character sequences: substring search and string
//! building.  Diagnostic trails and the PATH check are specified with
//! `is_substr`, so the search here is the ground truth for "contains".

use vstd::prelude::*;

verus! {

/// `needle` occurs contiguously somewhere inside `hay`.
pub open spec fn is_substr(needle: Seq<char>, hay: Seq<char>) -> bool {
    exists|i: int|
        0 <= i && i + needle.len() <= hay.len() && #[trigger] hay.subrange(
            i,
            i + needle.len(),
        ) == needle
}

/// An occurrence survives appending more text on the right.
pub proof fn lemma_substr_append_right(needle: Seq<char>, hay: Seq<char>, tail: Seq<char>)
    requires
        is_substr(needle, hay),
    ensures
        is_substr(needle, hay + tail),
{
    let i = choose|i: int|
        0 <= i && i + needle.len() <= hay.len() && #[trigger] hay.subrange(i, i + needle.len()) == needle;
    assert((hay + tail).subrange(i, i + needle.len()) =~= hay.subrange(i, i + needle.len()));
}

/// An occurrence survives prepending more text on the left.
pub proof fn lemma_substr_append_left(needle: Seq<char>, head: Seq<char>, hay: Seq<char>)
    requires
        is_substr(needle, hay),
    ensures
        is_substr(needle, head + hay),
{
    let i = choose|i: int|
        0 <= i && i + needle.len() <= hay.len() && #[trigger] hay.subrange(i, i + needle.len()) == needle;
    let j = head.len() + i;
    assert((head + hay).subrange(j, j + needle.len()) =~= hay.subrange(i, i + needle.len()));
}

/// A sequence occurs inside itself.
pub proof fn lemma_substr_self(s: Seq<char>)
    ensures
        is_substr(s, s),
{
    let l = s.len() as int;
    assert(s.subrange(0, 0 + l) =~= s);
    assert(0 <= 0 && 0 + s.len() <= s.len() && s.subrange(0, 0 + s.len() as int) == s);
}

/// The middle part of a three-way concatenation occurs in the whole.
pub proof fn lemma_substr_of_concat3(head: Seq<char>, mid: Seq<char>, tail: Seq<char>)
    ensures
        is_substr(mid, head + mid + tail),
{
    lemma_substr_self(mid);
    lemma_substr_append_left(mid, head, mid);
    lemma_substr_append_right(mid, head + mid, tail);
}

/// Whether `hay` contains `needle` as a contiguous substring.
pub fn contains_str(hay: &str, needle: &str) -> (b: bool)
    ensures
        b == is_substr(needle@, hay@),
{
    let hlen = hay.unicode_len();
    let nlen = needle.unicode_len();
    if nlen > hlen {
        return false;
    }
    if nlen == 0 {
        proof {
            assert(hay@.subrange(0, 0 + needle@.len() as int) =~= needle@);
        }
        return true;
    }
    let mut i: usize = 0;
    while i <= hlen - nlen
        invariant
            1 <= nlen <= hlen,
            hlen == hay@.len(),
            nlen == needle@.len(),
            i <= hlen - nlen + 1,
            forall|j: int| 0 <= j < i ==> #[trigger] hay@.subrange(j, j + nlen) != needle@,
        decreases hlen - nlen - i + 1,
    {
        let mut k: usize = 0;
        let mut matched = true;
        while k < nlen
            invariant
                nlen <= hlen,
                hlen == hay@.len(),
                nlen == needle@.len(),
                i + nlen <= hlen,
                k <= nlen,
                matched ==> forall|j: int| 0 <= j < k ==> hay@[i + j] == needle@[j],
                !matched ==> hay@.subrange(i as int, i + nlen) != needle@,
            decreases nlen - k,
        {
            if hay.get_char(i + k) != needle.get_char(k) {
                proof {
                    assert(hay@.subrange(i as int, i + nlen)[k as int] == hay@[i + k]);
                }
                matched = false;
                k = nlen;
            } else {
                k = k + 1;
            }
        }
        if matched {
            proof {
                assert(hay@.subrange(i as int, i + nlen) =~= needle@);
            }
            return true;
        }
        i = i + 1;
    }
    proof {
        assert(forall|j: int|
            0 <= j && j + needle@.len() <= hay@.len() ==> #[trigger] hay@.subrange(j, j + nlen) != needle@);
    }
    false
}

/// Whether two strings hold the same characters.
pub fn str_eq(a: &str, b: &str) -> (r: bool)
    ensures
        r == (a@ == b@),
{
    let alen = a.unicode_len();
    let blen = b.unicode_len();
    if alen != blen {
        return false;
    }
    let mut i: usize = 0;
    while i < alen
        invariant
            alen == a@.len(),
            alen == b@.len(),
            i <= alen,
            forall|j: int| 0 <= j < i ==> a@[j] == b@[j],
        decreases alen - i,
    {
        if a.get_char(i) != b.get_char(i) {
            return false;
        }
        i = i + 1;
    }
    proof {
        assert(a@ =~= b@);
    }
    true
}

/// The concatenation of two strings, with its exact contents.
pub fn concat2(a: &str, b: &str) -> (r: String)
    ensures
        r@ == a@ + b@,
{
    let mut r = a.to_owned();
    r.append(b);
    r
}

/// The concatenation of three strings, with its exact contents.
pub fn concat3(a: &str, b: &str, c: &str) -> (r: String)
    ensures
        r@ == a@ + b@ + c@,
{
    let mut r = a.to_owned();
    r.append(b);
    r.append(c);
    r
}

} // verus!
