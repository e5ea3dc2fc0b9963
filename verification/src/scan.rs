//! Marker scanning.
//!
//! The file-discovery collaborator only hands over source fragments that
//! textually contain a channel-declaration marker or an initializer
//! marker; every other fragment is never revisited. The test deciding
//! that is this verified substring search.

use vstd::prelude::*;

verus! {

/// `pat` occurs in `text` starting at position `i`.
pub open spec fn spec_contains_at(text: Seq<char>, pat: Seq<char>, i: int) -> bool {
    0 <= i && i + pat.len() <= text.len() && text.subrange(i, i + pat.len()) == pat
}

/// `pat` occurs somewhere in `text`.
pub open spec fn spec_contains(text: Seq<char>, pat: Seq<char>) -> bool {
    exists|i: int| spec_contains_at(text, pat, i)
}

/// Whether `pat` occurs in `text`.
pub fn contains_pattern(text: &str, pat: &str) -> (r: bool)
    ensures
        r == spec_contains(text@, pat@),
{
    let n = text.unicode_len();
    let m = pat.unicode_len();
    if m > n {
        proof {
            assert(forall|i: int| !spec_contains_at(text@, pat@, i));
        }
        return false;
    }
    let mut i: usize = 0;
    while i <= n - m
        invariant
            n == text@.len(),
            m == pat@.len(),
            m <= n,
            i <= n - m + 1,
            forall|ii: int| 0 <= ii < i ==> !spec_contains_at(text@, pat@, ii),
        decreases n - m + 1 - i,
    {
        let mut j: usize = 0;
        while j < m && text.get_char(i + j) == pat.get_char(j)
            invariant
                n == text@.len(),
                m == pat@.len(),
                m <= n,
                i <= n - m,
                j <= m,
                forall|jj: int| 0 <= jj < j ==> text@[i + jj] == pat@[jj],
            decreases m - j,
        {
            j = j + 1;
        }
        if j == m {
            proof {
                assert(text@.subrange(i as int, i + m) =~= pat@);
                assert(spec_contains_at(text@, pat@, i as int));
            }
            return true;
        }
        proof {
            assert(!spec_contains_at(text@, pat@, i as int)) by {
                if spec_contains_at(text@, pat@, i as int) {
                    assert(text@.subrange(i as int, i + m)[j as int] == pat@[j as int]);
                }
            }
        }
        i = i + 1;
    }
    proof {
        assert(forall|ii: int| i <= ii ==> !spec_contains_at(text@, pat@, ii));
    }
    false
}

/// The fragment carries a channel-declaration marker.
pub fn has_channel_marker(text: &str) -> (r: bool)
    ensures
        r == spec_contains(text@, "#[channel("@),
{
    contains_pattern(text, "#[channel(")
}

/// The fragment carries an initializer marker.
pub fn has_inject_marker(text: &str) -> (r: bool)
    ensures
        r == spec_contains(text@, "#[inject]"@),
{
    contains_pattern(text, "#[inject]")
}

/// The fragment is worth parsing at all: it carries at least one of the
/// two markers.
pub fn has_any_marker(text: &str) -> (r: bool)
    ensures
        r == (spec_contains(text@, "#[channel("@) || spec_contains(text@, "#[inject]"@)),
{
    has_channel_marker(text) || has_inject_marker(text)
}

} // verus!
