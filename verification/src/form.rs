//! The form state: an ordered name→value mapping built up while a flow's
//! nodes are rendered, and augmented with the flow's `action` URL before
//! submission. Order is kept because it is the rendering order; keys stay
//! unique.

use vstd::prelude::*;
use crate::pairs::first_value_for;
use crate::pairs::keys_unique;
use crate::pairs::lemma_first_value_none;
use crate::pairs::lemma_remove_key_excludes;
use crate::pairs::lookup_value;
use crate::pairs::copy_without_key;
use crate::pairs::remove_key;

verus! {

/// Seeding a mapping: the pair is appended only when its key is absent; a
/// value that is already there is never overwritten.
pub open spec fn seeded(
    s: Seq<(String, String)>,
    name: String,
    value: String,
) -> Seq<(String, String)> {
    if first_value_for(s, name@) is Some {
        s
    } else {
        s.push((name, value))
    }
}

/// Seeding is idempotent: once a key is present — whether it was just
/// seeded or typed by the user — seeding it again changes nothing.
pub proof fn lemma_seeded_idempotent(s: Seq<(String, String)>, name: String, value: String)
    ensures
        seeded(seeded(s, name, value), name, value) == seeded(s, name, value),
{
    if first_value_for(s, name@) is None {
        crate::pairs::lemma_first_value_push(s, (name, value), name@);
    }
}

/// An ordered mapping from field name to value with unique keys.
#[derive(Clone, Debug)]
pub struct FormState {
    entries: Vec<(String, String)>,
}

impl View for FormState {
    type V = Seq<(String, String)>;

    closed spec fn view(&self) -> Seq<(String, String)> {
        self.entries@
    }
}

impl FormState {
    /// Well-formed: no two entries share a name.
    pub open spec fn wf(&self) -> bool {
        keys_unique(self@)
    }

    /// An empty form state.
    pub fn new() -> (r: FormState)
        ensures
            r@ =~= Seq::<(String, String)>::empty(),
            r.wf(),
    {
        FormState { entries: Vec::new() }
    }

    /// The entries in order, for encoding and display.
    pub fn entries(&self) -> (r: &Vec<(String, String)>)
        ensures
            r@ == self@,
    {
        &self.entries
    }

    /// The value stored under `name`, if any.
    pub fn get(&self, name: &str) -> (r: Option<String>)
        ensures
            match r {
                Some(v) => first_value_for(self@, name@) == Some::<Seq<char>>(v@),
                None => first_value_for(self@, name@) is None,
            },
    {
        lookup_value(&self.entries, name)
    }

    /// Stores `value` under `name` only when `name` is absent; an existing
    /// value — typically one the user already typed — is left untouched.
    pub fn seed(&mut self, name: &String, value: &String)
        requires
            old(self).wf(),
        ensures
            final(self).wf(),
            final(self)@ == seeded(old(self)@, *name, *value),
            first_value_for(final(self)@, name@) is Some,
    {
        let present = lookup_value(&self.entries, name.as_str());
        if present.is_none() {
            proof {
                lemma_first_value_none(self.entries@, name@);
            }
            self.entries.push((name.clone(), value.clone()));
            proof {
                crate::pairs::lemma_first_value_push(
                    old(self).entries@,
                    (*name, *value),
                    name@,
                );
                assert forall|i: int, j: int| 0 <= i < j < self@.len() implies self@[i].0@
                    != self@[j].0@ by {
                    if j < self@.len() - 1 {
                        assert(self@[i] == old(self)@[i]);
                        assert(self@[j] == old(self)@[j]);
                    } else {
                        assert(self@[i] == old(self)@[i]);
                        assert(self@[j] == (*name, *value));
                    }
                }
            }
        }
    }

    /// Stores `value` under `name`, replacing any previous entry of that
    /// name; the entry moves to the end.
    pub fn set(&mut self, name: String, value: String)
        requires
            old(self).wf(),
        ensures
            final(self).wf(),
            final(self)@ == remove_key(old(self)@, name@).push((name, value)),
            first_value_for(final(self)@, name@) == Some(value@),
    {
        let ghost n = name;
        let ghost v = value;
        let pruned = copy_without_key(&self.entries, name.as_str());
        self.entries = pruned;
        self.entries.push((name, value));
        proof {
            lemma_remove_key_excludes(old(self)@, n@);
            let rd = remove_key(old(self)@, n@);
            crate::pairs::lemma_remove_key_unique(old(self)@, n@);
            crate::pairs::lemma_first_value_push(rd, (n, v), n@);
            assert(first_value_for(rd, n@) is None) by {
                if first_value_for(rd, n@) is Some {
                    crate::pairs::lemma_first_value_present(rd, n@);
                }
            }
            assert forall|i: int, j: int| 0 <= i < j < self@.len() implies self@[i].0@
                != self@[j].0@ by {
                if j < self@.len() - 1 {
                    assert(self@[i] == rd[i]);
                    assert(self@[j] == rd[j]);
                } else {
                    assert(self@[i] == rd[i]);
                    assert(self@[j] == (n, v));
                }
            }
        }
    }

    /// The entries in order with every entry named `name` left out.
    pub fn without_key(&self, name: &str) -> (r: Vec<(String, String)>)
        ensures
            r@ == remove_key(self@, name@),
    {
        copy_without_key(&self.entries, name)
    }
}

} // verus!
