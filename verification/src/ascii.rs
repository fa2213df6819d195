//! Case-insensitive ASCII comparison on character sequences.

use vstd::prelude::*;

verus! {

/// The ASCII lowercase counterpart of a character: letters `A`..`Z` map to
/// `a`..`z`, every other character stays as it is.
pub open spec fn lower_char(c: char) -> char {
    if 'A' <= c && c <= 'Z' {
        ((c as u8) + 32) as char
    } else {
        c
    }
}

/// A character sequence with every ASCII uppercase letter lowered.
pub open spec fn lower(s: Seq<char>) -> Seq<char> {
    s.map_values(|c: char| lower_char(c))
}

/// Lowers one ASCII uppercase letter, leaving other characters unchanged.
pub fn lower_char_exec(c: char) -> (r: char)
    ensures
        r == lower_char(c),
{
    if 'A' <= c && c <= 'Z' {
        ((c as u8) + 32) as char
    } else {
        c
    }
}

/// Whether two strings are equal once ASCII case is ignored.
pub fn eq_ignore_case(a: &str, b: &str) -> (r: bool)
    ensures
        r == (lower(a@) == lower(b@)),
{
    let a_len = a.unicode_len();
    let b_len = b.unicode_len();
    if a_len != b_len {
        assert(lower(a@).len() != lower(b@).len());
        return false;
    }
    let mut i: usize = 0;
    while i < a_len
        invariant
            a_len == a@.len(),
            b_len == b@.len(),
            a_len == b_len,
            i <= a_len,
            forall|j: int| 0 <= j < i ==> lower(a@)[j] == lower(b@)[j],
        decreases a_len - i,
    {
        let ca = a.get_char(i);
        let cb = b.get_char(i);
        if lower_char_exec(ca) != lower_char_exec(cb) {
            assert(lower(a@)[i as int] != lower(b@)[i as int]);
            return false;
        }
        i += 1;
    }
    assert(lower(a@) =~= lower(b@));
    true
}

/// Whether `needle` occurs contiguously inside `hay`.
pub open spec fn contains_seq(hay: Seq<char>, needle: Seq<char>) -> bool {
    exists|i: int|
        0 <= i && i + needle.len() <= hay.len() && #[trigger] hay.subrange(i, i + needle.len())
            == needle
}

/// Whether `needle`, case ignored, occurs in `hay` at exactly offset `i`.
fn matches_at(hay: &str, needle: &str, i: usize) -> (r: bool)
    requires
        i + needle@.len() <= hay@.len(),
    ensures
        r == (lower(hay@).subrange(i as int, i + needle@.len()) == lower(needle@)),
{
    let hay_len = hay.unicode_len();
    let needle_len = needle.unicode_len();
    let mut j: usize = 0;
    while j < needle_len
        invariant
            hay_len == hay@.len(),
            needle_len == needle@.len(),
            i + needle_len <= hay_len,
            j <= needle_len,
            forall|l: int| 0 <= l < j ==> lower(hay@)[i + l] == lower(needle@)[l],
        decreases needle_len - j,
    {
        let ch = hay.get_char(i + j);
        let cn = needle.get_char(j);
        if lower_char_exec(ch) != lower_char_exec(cn) {
            assert(lower(hay@).subrange(i as int, i + needle@.len())[j as int] != lower(
                needle@,
            )[j as int]);
            return false;
        }
        j += 1;
    }
    assert(lower(hay@).subrange(i as int, i + needle@.len()) =~= lower(needle@));
    true
}

/// Whether `needle` occurs inside `hay` once ASCII case is ignored on both.
pub fn contains_ignore_case(hay: &str, needle: &str) -> (r: bool)
    ensures
        r == contains_seq(lower(hay@), lower(needle@)),
{
    let hay_len = hay.unicode_len();
    let needle_len = needle.unicode_len();
    if needle_len > hay_len {
        return false;
    }
    if needle_len == 0 {
        assert(lower(hay@).subrange(0, 0 + lower(needle@).len() as int) =~= lower(needle@));
        return true;
    }
    let mut i: usize = 0;
    while i <= hay_len - needle_len
        invariant
            hay_len == hay@.len(),
            needle_len == needle@.len(),
            0 < needle_len <= hay_len,
            i <= hay_len - needle_len + 1,
            forall|k: int|
                0 <= k < i ==> #[trigger] lower(hay@).subrange(k, k + needle@.len()) != lower(
                    needle@,
                ),
        decreases hay_len - i,
    {
        if matches_at(hay, needle, i) {
            assert(lower(hay@).subrange(i as int, i as int + lower(needle@).len()) == lower(
                needle@,
            ));
            return true;
        }
        i += 1;
    }
    false
}

} // verus!
