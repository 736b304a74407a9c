//! Case-insensitive byte-string search, the primitive the locale scanner is
//! built on. It compares ASCII letters case-insensitively and all other bytes
//! exactly, so it makes no assumption about the encoding of the value.

use vstd::prelude::*;

verus! {

/// ASCII lower-casing of one byte: `A`..=`Z` shift into `a`..=`z`, every
/// other byte is unchanged.
pub open spec fn lower_byte(b: u8) -> u8 {
    if 65 <= b && b <= 90 {
        (b + 32) as u8
    } else {
        b
    }
}

/// A byte sequence is caseless when ASCII lower-casing leaves every byte as
/// it is (it holds no ASCII uppercase letter).
pub open spec fn is_lowercase(s: Seq<u8>) -> bool {
    forall|j: int| 0 <= j < s.len() ==> lower_byte(s[j]) == s[j]
}

/// The needle occurs at position `i` of the haystack, comparing the haystack
/// case-insensitively: each haystack byte, lower-cased, equals the needle
/// byte at the same offset.
pub open spec fn matches_at(hay: Seq<u8>, needle: Seq<u8>, i: int) -> bool {
    &&& 0 <= i
    &&& i + needle.len() <= hay.len()
    &&& forall|j: int| 0 <= j < needle.len() ==> lower_byte(hay[i + j]) == needle[j]
}

/// Some position of the haystack carries a case-insensitive occurrence of
/// the needle.
pub open spec fn contains_ignore_case(hay: Seq<u8>, needle: Seq<u8>) -> bool {
    exists|i: int| matches_at(hay, needle, i)
}

/// The two byte strings are equal once the first is ASCII lower-cased.
pub open spec fn eq_ignore_case(v: Seq<u8>, name: Seq<u8>) -> bool {
    v.len() == name.len() && matches_at(v, name, 0)
}

fn lower_byte_exec(b: u8) -> (r: u8)
    ensures
        r == lower_byte(b),
{
    if b >= 65 && b <= 90 {
        b + 32
    } else {
        b
    }
}

fn matches_at_exec(haystack: &Vec<u8>, needle: &Vec<u8>, i: usize) -> (r: bool)
    requires
        i + needle@.len() <= haystack@.len(),
    ensures
        r == matches_at(haystack@, needle@, i as int),
{
    let hlen = haystack.len();
    let nlen = needle.len();
    let mut j: usize = 0;
    while j < nlen
        invariant
            hlen == haystack@.len(),
            nlen == needle@.len(),
            i + needle@.len() <= haystack@.len(),
            j <= needle@.len(),
            forall|k: int| 0 <= k < j ==> lower_byte(haystack@[i + k]) == needle@[k],
        decreases needle@.len() - j,
    {
        if lower_byte_exec(haystack[i + j]) != needle[j] {
            assert(lower_byte(haystack@[i + j]) != needle@[j as int]);
            return false;
        }
        j += 1;
    }
    true
}

/// Whether the needle occurs case-insensitively anywhere in the haystack.
/// The needle must be caseless (pure lowercase ASCII letters, or bytes with
/// no case at all), so that lower-casing only the haystack is enough.
pub fn strstr_ignore_case(haystack: &Vec<u8>, needle: &Vec<u8>) -> (r: bool)
    requires
        is_lowercase(needle@),
    ensures
        r == contains_ignore_case(haystack@, needle@),
{
    let hlen = haystack.len();
    let nlen = needle.len();
    if nlen == 0 {
        assert(matches_at(haystack@, needle@, 0));
        return true;
    }
    if hlen < nlen {
        assert forall|i: int| !matches_at(haystack@, needle@, i) by {}
        return false;
    }
    let mut i: usize = 0;
    while i <= hlen - nlen
        invariant
            nlen == needle@.len(),
            hlen == haystack@.len(),
            0 < nlen <= hlen,
            i <= hlen - nlen + 1,
            forall|k: int| 0 <= k < i ==> !matches_at(haystack@, needle@, k),
        decreases hlen - nlen + 1 - i,
    {
        if matches_at_exec(haystack, needle, i) {
            assert(contains_ignore_case(haystack@, needle@));
            return true;
        }
        i += 1;
    }
    assert forall|k: int| !matches_at(haystack@, needle@, k) by {
        if 0 <= k && k + needle@.len() <= haystack@.len() {
            assert(k < i);
        }
    }
    false
}

/// Whether two byte strings are equal once the first is ASCII lower-cased.
/// The second must be caseless, as for `strstr_ignore_case`.
pub fn eq_ignore_case_exec(value: &Vec<u8>, name: &Vec<u8>) -> (r: bool)
    requires
        is_lowercase(name@),
    ensures
        r == eq_ignore_case(value@, name@),
{
    if value.len() != name.len() {
        return false;
    }
    matches_at_exec(value, name, 0)
}

} // verus!
