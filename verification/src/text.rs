//! Substring search over strings, used to classify error messages.

use vstd::prelude::*;

verus! {

/// The needle occurs in the haystack starting at position `i`.
pub open spec fn occurs_at(h: Seq<char>, n: Seq<char>, i: int) -> bool {
    0 <= i && i + n.len() <= h.len() && h.subrange(i, i + n.len()) == n
}

/// The needle occurs somewhere in the haystack.
pub open spec fn contains_seq(h: Seq<char>, n: Seq<char>) -> bool {
    exists|i: int| occurs_at(h, n, i)
}

/// Whether `needle` occurs as a contiguous run of characters in `haystack`.
pub fn str_contains(haystack: &str, needle: &str) -> (r: bool)
    ensures
        r == contains_seq(haystack@, needle@),
{
    let hl = haystack.unicode_len();
    let nl = needle.unicode_len();
    if nl > hl {
        assert(forall|i: int| !occurs_at(haystack@, needle@, i));
        return false;
    }
    if nl == 0 {
        assert(haystack@.subrange(0, 0) =~= needle@);
        assert(occurs_at(haystack@, needle@, 0));
        return true;
    }
    let mut i: usize = 0;
    loop
        invariant
            nl == needle@.len(),
            hl == haystack@.len(),
            1 <= nl <= hl,
            0 <= i <= hl - nl + 1,
            forall|k: int| 0 <= k < i ==> !occurs_at(haystack@, needle@, k),
        ensures
            !contains_seq(haystack@, needle@),
        decreases hl - nl - i + 1,
    {
        if i > hl - nl {
            assert forall|k: int| !occurs_at(haystack@, needle@, k) by {
                if occurs_at(haystack@, needle@, k) {
                    assert(0 <= k <= hl - nl);
                }
            }
            break ;
        }
        let mut j: usize = 0;
        let mut hit = true;
        while j < nl
            invariant
                nl == needle@.len(),
                hl == haystack@.len(),
                1 <= nl <= hl,
                0 <= i <= hl - nl,
                0 <= j <= nl,
                hit ==> forall|k: int| 0 <= k < j ==> haystack@[i + k] == needle@[k],
                !hit ==> !occurs_at(haystack@, needle@, i as int),
            decreases nl - j,
        {
            if haystack.get_char(i + j) != needle.get_char(j) {
                proof {
                    if occurs_at(haystack@, needle@, i as int) {
                        assert(haystack@.subrange(i as int, i + nl)[j as int] == needle@[j as int]);
                    }
                }
                hit = false;
                j = nl;
            } else {
                j += 1;
            }
        }
        if hit {
            assert(haystack@.subrange(i as int, i + nl) =~= needle@);
            assert(occurs_at(haystack@, needle@, i as int));
            return true;
        }
        i += 1;
    }
    false
}

} // verus!
