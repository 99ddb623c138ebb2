//! String primitives: verified prefix and substring tests over character
//! sequences for the health-check span filter, and the trusted lowering call
//! the configuration resolver compares disable values with.

use vstd::prelude::*;
use vstd::string::StrSliceExecFns;

verus! {

/// What `str::to_lowercase` returns: the Unicode-lowercased form of `s`,
/// a function of the characters alone.
pub uninterp spec fn lower_of(s: Seq<char>) -> Seq<char>;

/// Relies on `str::to_lowercase`: the result depends on the characters alone.
#[verifier::external_body]
pub(crate) fn lowercase(s: &str) -> (r: String)
    ensures
        r@ == lower_of(s@),
{
    s.to_lowercase()
}

/// `p` is an initial segment of `s`.
pub open spec fn is_prefix_of(p: Seq<char>, s: Seq<char>) -> bool {
    p.len() <= s.len() && s.subrange(0, p.len() as int) == p
}

/// Executable prefix test over arbitrary (not necessarily ASCII) strings.
pub fn str_starts_with(s: &str, p: &str) -> (r: bool)
    ensures
        r == is_prefix_of(p@, s@),
{
    let s_len = s.unicode_len();
    let p_len = p.unicode_len();
    if p_len > s_len {
        assert(!is_prefix_of(p@, s@));
        return false;
    }
    let mut i: usize = 0;
    while i < p_len
        invariant
            p_len == p@.len(),
            s_len == s@.len(),
            p_len <= s_len,
            i <= p_len,
            forall|j: int| 0 <= j < i ==> s@[j] == p@[j],
        decreases p_len - i,
    {
        if s.get_char(i) != p.get_char(i) {
            assert(!is_prefix_of(p@, s@)) by {
                assert(s@.subrange(0, p@.len() as int)[i as int] == s@[i as int]);
            }
            return false;
        }
        i += 1;
    }
    assert(s@.subrange(0, p@.len() as int) =~= p@);
    true
}

/// `sub` occurs somewhere inside `s` as a contiguous run of characters.
pub open spec fn contains_sub(s: Seq<char>, sub: Seq<char>) -> bool {
    exists|i: int|
        0 <= i && i + sub.len() <= s.len() && #[trigger] s.subrange(i, i + sub.len() as int)
            == sub
}

/// Whether `sub` occurs in `s` starting exactly at position `at`.
spec fn matches_at(s: Seq<char>, sub: Seq<char>, at: int) -> bool {
    0 <= at && at + sub.len() <= s.len() && s.subrange(at, at + sub.len() as int) == sub
}

/// Executable substring test over arbitrary (not necessarily ASCII) strings.
pub fn str_contains(s: &str, sub: &str) -> (r: bool)
    ensures
        r == contains_sub(s@, sub@),
{
    let s_len = s.unicode_len();
    let sub_len = sub.unicode_len();
    if sub_len > s_len {
        assert(!contains_sub(s@, sub@));
        return false;
    }
    if sub_len == 0 {
        assert(s@.subrange(0, 0) =~= sub@);
        assert(matches_at(s@, sub@, 0));
        return true;
    }
    let mut start: usize = 0;
    while start <= s_len - sub_len
        invariant
            s_len == s@.len(),
            sub_len == sub@.len(),
            1 <= sub_len <= s_len,
            start <= s_len - sub_len + 1,
            forall|k: int| 0 <= k < start ==> !matches_at(s@, sub@, k),
        decreases s_len - sub_len + 1 - start,
    {
        let mut j: usize = 0;
        let mut mismatch = false;
        while j < sub_len
            invariant
                s_len == s@.len(),
                sub_len == sub@.len(),
                start + sub_len <= s_len,
                j <= sub_len,
                !mismatch ==> forall|t: int| 0 <= t < j ==> s@[start + t] == sub@[t],
                mismatch ==> !matches_at(s@, sub@, start as int),
            decreases sub_len - j,
        {
            if s.get_char(start + j) != sub.get_char(j) {
                proof {
                    if matches_at(s@, sub@, start as int) {
                        assert(s@.subrange(start as int, start + sub@.len() as int)[j as int]
                            == s@[start + j]);
                    }
                }
                mismatch = true;
                j = sub_len;
            } else {
                j += 1;
            }
        }
        if !mismatch {
            assert(s@.subrange(start as int, start + sub@.len() as int) =~= sub@);
            assert(matches_at(s@, sub@, start as int));
            return true;
        }
        start += 1;
    }
    proof {
        if contains_sub(s@, sub@) {
            let i = choose|i: int|
                0 <= i && i + sub@.len() <= s@.len() && #[trigger] s@.subrange(
                    i,
                    i + sub@.len() as int,
                ) == sub@;
            assert(matches_at(s@, sub@, i));
            assert(i < start);
        }
    }
    false
}

} // verus!
