//! Substring matching against enumerated window titles.
//!
//! A `WindowByName` target selects the first window, in engine enumeration
//! order, whose title contains the requested substring.  The tie-break to
//! the first match is deliberate policy, not an error.

use vstd::prelude::*;

verus! {

/// The needle occurs in the haystack starting at character position `at`.
pub open spec fn occurs_at(hay: Seq<char>, needle: Seq<char>, at: int) -> bool {
    &&& 0 <= at
    &&& at + needle.len() <= hay.len()
    &&& forall|j: int| 0 <= j < needle.len() ==> hay[at + j] == needle[j]
}

/// The needle occurs somewhere in the haystack.  An empty needle occurs in
/// every haystack.
pub open spec fn contains_chars(hay: Seq<char>, needle: Seq<char>) -> bool {
    exists|at: int| occurs_at(hay, needle, at)
}

/// `titles[at]` is the first title, in enumeration order, that contains the
/// needle.
pub open spec fn first_title_match(titles: Seq<String>, needle: Seq<char>, at: int) -> bool {
    &&& 0 <= at < titles.len()
    &&& contains_chars(titles[at]@, needle)
    &&& forall|k: int| 0 <= k < at ==> !contains_chars(#[trigger] titles[k]@, needle)
}

/// Whether the needle occurs in the haystack at exactly the position `at`.
fn occurs_at_position(hay: &str, needle: &str, at: usize) -> (found: bool)
    requires
        at + needle@.len() <= hay@.len(),
    ensures
        found == occurs_at(hay@, needle@, at as int),
{
    let hay_len: usize = hay.unicode_len();
    let needle_len: usize = needle.unicode_len();
    let mut j: usize = 0;
    while j < needle_len
        invariant
            j <= needle_len,
            hay_len == hay@.len(),
            needle_len == needle@.len(),
            at + needle_len <= hay_len,
            forall|t: int| 0 <= t < j ==> hay@[at + t] == needle@[t],
        decreases needle_len - j,
    {
        if hay.get_char(at + j) != needle.get_char(j) {
            assert(!occurs_at(hay@, needle@, at as int)) by {
                assert(hay@[at + j] != needle@[j as int]);
            }
            return false;
        }
        j += 1;
    }
    true
}

/// Whether `hay` contains `needle` as a contiguous substring of characters.
pub fn contains_substring(hay: &str, needle: &str) -> (found: bool)
    ensures
        found == contains_chars(hay@, needle@),
{
    let hay_len: usize = hay.unicode_len();
    let needle_len: usize = needle.unicode_len();
    if needle_len == 0 {
        assert(occurs_at(hay@, needle@, 0));
        return true;
    }
    if needle_len > hay_len {
        assert(forall|at: int| !occurs_at(hay@, needle@, at));
        return false;
    }
    let mut at: usize = 0;
    while at <= hay_len - needle_len
        invariant
            hay_len == hay@.len(),
            needle_len == needle@.len(),
            0 < needle_len <= hay_len,
            at <= hay_len - needle_len + 1,
            forall|k: int| 0 <= k < at ==> !occurs_at(hay@, needle@, k),
        decreases hay_len - needle_len + 1 - at,
    {
        if occurs_at_position(hay, needle, at) {
            return true;
        }
        at += 1;
    }
    assert forall|k: int| !occurs_at(hay@, needle@, k) by {
        if k < 0 || k > hay_len - needle_len {
            assert(!occurs_at(hay@, needle@, k));
        }
    }
    false
}

/// The position of the first title, in enumeration order, containing the
/// needle, or `None` when no title does.
pub fn find_first_containing(titles: &Vec<String>, needle: &str) -> (position: Option<usize>)
    ensures
        position matches Some(at) ==> first_title_match(titles@, needle@, at as int),
        position is None ==> forall|k: int|
            0 <= k < titles@.len() ==> !contains_chars(#[trigger] titles@[k]@, needle@),
{
    let mut k: usize = 0;
    while k < titles.len()
        invariant
            k <= titles@.len(),
            forall|t: int| 0 <= t < k ==> !contains_chars(#[trigger] titles@[t]@, needle@),
        decreases titles@.len() - k,
    {
        if contains_substring(titles[k].as_str(), needle) {
            return Some(k);
        }
        k += 1;
    }
    None
}

} // verus!
