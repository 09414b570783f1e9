//! First-match lookup over ordered (name, value) pair lists.
//!
//! HTTP headers, cookie jars and the form state are all ordered lists of
//! string pairs; this module states what "the value for a name" and
//! "the list without a name" mean, and proves the facts the orchestration
//! contracts lean on.

use vstd::prelude::*;

verus! {

/// The value of the first pair with the given key, if any.
pub open spec fn first_value_for(s: Seq<(String, String)>, key: Seq<char>) -> Option<Seq<char>>
    decreases s.len(),
{
    if s.len() == 0 {
        None
    } else if s[0].0@ == key {
        Some(s[0].1@)
    } else {
        first_value_for(s.drop_first(), key)
    }
}

/// The list with every pair of the given key removed, order kept.
pub open spec fn remove_key(s: Seq<(String, String)>, key: Seq<char>) -> Seq<(String, String)>
    decreases s.len(),
{
    if s.len() == 0 {
        Seq::empty()
    } else if s.last().0@ == key {
        remove_key(s.drop_last(), key)
    } else {
        remove_key(s.drop_last(), key).push(s.last())
    }
}

/// No two pairs of the list share a key.
pub open spec fn keys_unique(s: Seq<(String, String)>) -> bool {
    forall|i: int, j: int| 0 <= i < j < s.len() ==> s[i].0@ != s[j].0@
}

/// A lookup that finds nothing means no pair has that key.
pub proof fn lemma_first_value_none(s: Seq<(String, String)>, key: Seq<char>)
    requires
        first_value_for(s, key) is None,
    ensures
        forall|i: int| 0 <= i < s.len() ==> s[i].0@ != key,
    decreases s.len(),
{
    if s.len() > 0 {
        lemma_first_value_none(s.drop_first(), key);
        assert forall|i: int| 0 <= i < s.len() implies s[i].0@ != key by {
            if i > 0 {
                assert(s.drop_first()[i - 1] == s[i]);
            }
        }
    }
}

/// How appending one pair changes a lookup: an existing first match wins;
/// otherwise the new pair answers exactly for its own key.
pub proof fn lemma_first_value_push(s: Seq<(String, String)>, p: (String, String), key: Seq<char>)
    ensures
        first_value_for(s.push(p), key) == (if first_value_for(s, key) is Some {
            first_value_for(s, key)
        } else if p.0@ == key {
            Some(p.1@)
        } else {
            None
        }),
    decreases s.len(),
{
    if s.len() == 0 {
        assert(s.push(p).len() == 1);
        assert(s.push(p)[0] == p);
        assert(s.push(p).drop_first() =~= Seq::<(String, String)>::empty());
        assert(first_value_for(Seq::<(String, String)>::empty(), key) is None);
        assert(first_value_for(s, key) is None);
    } else {
        lemma_first_value_push(s.drop_first(), p, key);
        assert(s.push(p)[0] == s[0]);
        assert(s.push(p).drop_first() =~= s.drop_first().push(p));
        assert(first_value_for(s, key) == (if s[0].0@ == key {
            Some(s[0].1@)
        } else {
            first_value_for(s.drop_first(), key)
        }));
        assert(first_value_for(s.push(p), key) == (if s[0].0@ == key {
            Some(s[0].1@)
        } else {
            first_value_for(s.drop_first().push(p), key)
        }));
    }
}

/// Removing a key really removes it: no remaining pair carries it.
pub proof fn lemma_remove_key_excludes(s: Seq<(String, String)>, key: Seq<char>)
    ensures
        forall|i: int|
            0 <= i < remove_key(s, key).len() ==> #[trigger] remove_key(s, key)[i].0@ != key,
    decreases s.len(),
{
    if s.len() > 0 {
        lemma_remove_key_excludes(s.drop_last(), key);
        let r = remove_key(s, key);
        let rd = remove_key(s.drop_last(), key);
        assert forall|i: int| 0 <= i < r.len() implies #[trigger] r[i].0@ != key by {
            if s.last().0@ == key {
                assert(r == rd);
            } else {
                assert(r == rd.push(s.last()));
                if i < rd.len() {
                    assert(r[i] == rd[i]);
                } else {
                    assert(r[i] == s.last());
                }
            }
        }
    }
}

/// A lookup that finds something means some pair has that key.
pub proof fn lemma_first_value_present(s: Seq<(String, String)>, key: Seq<char>)
    requires
        first_value_for(s, key) is Some,
    ensures
        exists|i: int| 0 <= i < s.len() && #[trigger] s[i].0@ == key,
    decreases s.len(),
{
    if s.len() > 0 {
        if s[0].0@ == key {
            assert(s[0].0@ == key);
        } else {
            lemma_first_value_present(s.drop_first(), key);
            let i = choose|i: int| 0 <= i < s.drop_first().len() && #[trigger] s.drop_first()[i].0@
                == key;
            assert(s[i + 1] == s.drop_first()[i]);
            assert(s[i + 1].0@ == key);
        }
    }
}

/// Every pair that survives a removal already stood in the original list.
pub proof fn lemma_remove_key_membership(s: Seq<(String, String)>, key: Seq<char>)
    ensures
        forall|i: int|
            0 <= i < remove_key(s, key).len() ==> exists|j: int|
                0 <= j < s.len() && #[trigger] remove_key(s, key)[i] == s[j],
    decreases s.len(),
{
    if s.len() > 0 {
        let sd = s.drop_last();
        lemma_remove_key_membership(sd, key);
        let r = remove_key(s, key);
        let rd = remove_key(sd, key);
        assert forall|i: int| 0 <= i < r.len() implies exists|j: int|
            0 <= j < s.len() && #[trigger] r[i] == s[j] by {
            if s.last().0@ == key || i < rd.len() {
                assert(r[i] == rd[i]);
                let j = choose|j: int| 0 <= j < sd.len() && #[trigger] rd[i] == sd[j];
                assert(sd[j] == s[j]);
                assert(r[i] == s[j]);
            } else {
                assert(r[i] == s.last());
                assert(r[i] == s[s.len() - 1]);
            }
        }
    }
}

/// Removing a key keeps the remaining keys unique.
pub proof fn lemma_remove_key_unique(s: Seq<(String, String)>, key: Seq<char>)
    requires
        keys_unique(s),
    ensures
        keys_unique(remove_key(s, key)),
    decreases s.len(),
{
    if s.len() > 0 {
        let sd = s.drop_last();
        assert(keys_unique(sd)) by {
            assert forall|i: int, j: int| 0 <= i < j < sd.len() implies sd[i].0@ != sd[j].0@ by {
                assert(sd[i] == s[i]);
                assert(sd[j] == s[j]);
            }
        }
        lemma_remove_key_unique(sd, key);
        let r = remove_key(s, key);
        let rd = remove_key(sd, key);
        if s.last().0@ != key {
            lemma_remove_key_membership(sd, key);
            assert(r == rd.push(s.last()));
            assert forall|i: int, j: int| 0 <= i < j < r.len() implies r[i].0@ != r[j].0@ by {
                if j < rd.len() {
                    assert(r[i] == rd[i]);
                    assert(r[j] == rd[j]);
                } else {
                    assert(r[j] == s.last());
                    assert(r[i] == rd[i]);
                    let m = choose|m: int| 0 <= m < sd.len() && #[trigger] rd[i] == sd[m];
                    assert(sd[m] == s[m]);
                    assert(s[m].0@ != s[s.len() - 1].0@);
                }
            }
        }
    }
}

/// Looks up the value of the first pair with the given key.
pub fn lookup_value(s: &Vec<(String, String)>, key: &str) -> (r: Option<String>)
    ensures
        match r {
            Some(v) => first_value_for(s@, key@) == Some::<Seq<char>>(v@),
            None => first_value_for(s@, key@) is None,
        },
{
    let n = s.len();
    proof {
        assert(s@.subrange(0, n as int) =~= s@);
    }
    let mut i: usize = 0;
    while i < n
        invariant
            n == s@.len(),
            0 <= i <= n,
            first_value_for(s@, key@) == first_value_for(s@.subrange(i as int, n as int), key@),
        decreases n - i,
    {
        proof {
            assert(s@.subrange(i as int, n as int)[0] == s@[i as int]);
            assert(s@.subrange(i as int, n as int).drop_first() =~= s@.subrange(
                i as int + 1,
                n as int,
            ));
        }
        if crate::text::str_eq(s[i].0.as_str(), key) {
            return Some(s[i].1.clone());
        }
        i += 1;
    }
    None
}

/// Copies the list, leaving out every pair with the given key.
pub fn copy_without_key(s: &Vec<(String, String)>, key: &str) -> (r: Vec<(String, String)>)
    ensures
        r@ == remove_key(s@, key@),
{
    let n = s.len();
    let mut out: Vec<(String, String)> = Vec::new();
    proof {
        assert(s@.take(0) =~= Seq::<(String, String)>::empty());
        assert(out@ =~= remove_key(s@.take(0), key@));
    }
    let mut i: usize = 0;
    while i < n
        invariant
            n == s@.len(),
            0 <= i <= n,
            out@ == remove_key(s@.take(i as int), key@),
        decreases n - i,
    {
        proof {
            assert(s@.take(i as int + 1).drop_last() =~= s@.take(i as int));
            assert(s@.take(i as int + 1).last() == s@[i as int]);
        }
        if !crate::text::str_eq(s[i].0.as_str(), key) {
            out.push((s[i].0.clone(), s[i].1.clone()));
        }
        i += 1;
    }
    proof {
        assert(s@.take(n as int) =~= s@);
    }
    out
}

} // verus!
