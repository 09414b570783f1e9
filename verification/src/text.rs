//! Character-level string predicates and their executable counterparts.
//!
//! Cookie names are matched by substring ("csrf_token" plus an upstream
//! suffix), and session detection scans `Set-Cookie` values for a marker,
//! so both containment and equality are stated over `Seq<char>` views.

use vstd::prelude::*;

verus! {

/// The needle `n` occurs in the haystack `h` starting at position `i`.
pub open spec fn contains_at(h: Seq<char>, n: Seq<char>, i: int) -> bool {
    0 <= i && i + n.len() <= h.len() && h.subrange(i, i + n.len() as int) == n
}

/// The needle `n` occurs somewhere in the haystack `h`.
pub open spec fn contains_seq(h: Seq<char>, n: Seq<char>) -> bool {
    exists|i: int| contains_at(h, n, i)
}

/// Does `n` occur in `h` starting exactly at position `i`?
fn match_at(h: &str, n: &str, i: usize) -> (r: bool)
    requires
        i + n@.len() <= h@.len(),
        h@.len() <= usize::MAX,
    ensures
        r == contains_at(h@, n@, i as int),
{
    let nl = n.unicode_len();
    let mut j: usize = 0;
    while j < nl
        invariant
            nl == n@.len(),
            0 <= j <= nl,
            i + nl <= h@.len(),
            h@.len() <= usize::MAX,
            forall|k: int| 0 <= k < j ==> h@[i + k] == n@[k],
        decreases nl - j,
    {
        if h.get_char(i + j) != n.get_char(j) {
            proof {
                assert(h@.subrange(i as int, i + n@.len() as int)[j as int] == h@[i + j]);
            }
            return false;
        }
        j += 1;
    }
    proof {
        assert(h@.subrange(i as int, i + n@.len() as int) =~= n@);
    }
    true
}

/// Substring search: does `n` occur anywhere in `h`?
pub fn str_contains(h: &str, n: &str) -> (r: bool)
    ensures
        r == contains_seq(h@, n@),
{
    let hl = h.unicode_len();
    let nl = n.unicode_len();
    if nl > hl {
        proof {
            assert(forall|k: int| !contains_at(h@, n@, k));
        }
        return false;
    }
    if nl == 0 {
        proof {
            assert(h@.subrange(0, 0) =~= n@);
            assert(contains_at(h@, n@, 0));
        }
        return true;
    }
    let bound = hl - nl;
    let mut i: usize = 0;
    while i <= bound
        invariant
            hl == h@.len(),
            nl == n@.len(),
            1 <= nl <= hl,
            bound == hl - nl,
            0 <= i <= bound + 1,
            forall|k: int| 0 <= k < i ==> !contains_at(h@, n@, k),
        decreases bound + 1 - i,
    {
        if match_at(h, n, i) {
            return true;
        }
        i += 1;
    }
    proof {
        assert(forall|k: int| i <= k ==> !contains_at(h@, n@, k));
        assert(forall|k: int| !contains_at(h@, n@, k));
    }
    false
}

/// Character-for-character string equality, stated over the views.
pub fn str_eq(a: &str, b: &str) -> (r: bool)
    ensures
        r == (a@ == b@),
{
    let al = a.unicode_len();
    let bl = b.unicode_len();
    if al != bl {
        return false;
    }
    let r = match_at(a, b, 0);
    proof {
        if r {
            assert(a@.subrange(0, a@.len() as int) =~= a@);
        } else {
            if a@ == b@ {
                assert(a@.subrange(0, b@.len() as int) =~= b@);
            }
        }
    }
    r
}

} // verus!
