//! Small verified operations on character strings.

use vstd::prelude::*;
use vstd::string::StrSliceExecFns;

verus! {

/// `needle` occurs in `hay` as a contiguous run of characters, starting at `i`.
pub open spec fn occurs_at(hay: Seq<char>, needle: Seq<char>, i: int) -> bool {
    &&& 0 <= i
    &&& i + needle.len() <= hay.len()
    &&& hay.subrange(i, i + needle.len()) == needle
}

/// `needle` occurs somewhere in `hay`.
pub open spec fn seq_contains(hay: Seq<char>, needle: Seq<char>) -> bool {
    exists|i: int| occurs_at(hay, needle, i)
}

/// `hay` ends with `suffix`.
pub open spec fn seq_ends_with(hay: Seq<char>, suffix: Seq<char>) -> bool {
    occurs_at(hay, suffix, hay.len() - suffix.len())
}

/// Whether the characters of `a` and `b` are the same.
pub fn same_text(a: &str, b: &str) -> (r: bool)
    ensures
        r == (a@ == b@),
{
    let sa = String::from_str(a);
    let sb = String::from_str(b);
    sa.eq(&sb)
}

/// Whether `needle` occurs at position `i` of `hay` (positions in characters).
fn occurs_at_exec(hay: &str, needle: &str, i: usize, hay_len: usize, needle_len: usize) -> (r: bool)
    requires
        hay_len == hay@.len(),
        needle_len == needle@.len(),
        i + needle_len <= hay_len,
    ensures
        r == occurs_at(hay@, needle@, i as int),
{
    let mut j: usize = 0;
    while j < needle_len
        invariant
            hay_len == hay@.len(),
            needle_len == needle@.len(),
            i + needle_len <= hay_len,
            j <= needle_len,
            forall|k: int| 0 <= k < j ==> hay@[i + k] == needle@[k],
        decreases needle_len - j,
    {
        if hay.get_char(i + j) != needle.get_char(j) {
            assert(hay@.subrange(i as int, i + needle_len)[j as int] != needle@[j as int]);
            return false;
        }
        j = j + 1;
    }
    assert(hay@.subrange(i as int, i + needle_len) =~= needle@);
    true
}

/// Whether `needle` occurs anywhere in `hay`.
pub fn contains_text(hay: &str, needle: &str) -> (r: bool)
    ensures
        r == seq_contains(hay@, needle@),
{
    let hay_len = hay.unicode_len();
    let needle_len = needle.unicode_len();
    if needle_len > hay_len {
        return false;
    }
    let last = hay_len - needle_len;
    let mut i: usize = 0;
    while i < last
        invariant
            hay_len == hay@.len(),
            needle_len == needle@.len(),
            last == hay_len - needle_len,
            i <= last,
            forall|k: int| 0 <= k < i ==> !occurs_at(hay@, needle@, k),
        decreases last - i,
    {
        if occurs_at_exec(hay, needle, i, hay_len, needle_len) {
            return true;
        }
        i = i + 1;
    }
    occurs_at_exec(hay, needle, last, hay_len, needle_len)
}

/// Whether `hay` ends with `suffix`.
pub fn ends_with_text(hay: &str, suffix: &str) -> (r: bool)
    ensures
        r == seq_ends_with(hay@, suffix@),
{
    let hay_len = hay.unicode_len();
    let suffix_len = suffix.unicode_len();
    if suffix_len > hay_len {
        return false;
    }
    occurs_at_exec(hay, suffix, hay_len - suffix_len, hay_len, suffix_len)
}

} // verus!
