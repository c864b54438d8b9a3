//! Named parameters: the values captured from a path or given in a query
//! string, each under its name.

use crate::assoc::{distinct, lemma_position, lemma_position_is, lemma_to_map_push, lemma_to_map_update, position, to_map};
use crate::text::{chars_of, spells};
use vstd::prelude::*;

verus! {

/// A mapping from parameter names to values. A name occurs once; giving it
/// again replaces its value.
#[derive(Debug)]
pub struct Params {
    entries: Vec<(String, String)>,
}

impl Params {
    /// The names, in the order in which they were first given.
    pub closed spec fn names(&self) -> Seq<Seq<char>> {
        Seq::new(self.entries@.len(), |i: int| self.entries@[i].0@)
    }

    /// The values, each at the place of its name.
    pub closed spec fn values(&self) -> Seq<Seq<char>> {
        Seq::new(self.entries@.len(), |i: int| self.entries@[i].1@)
    }

    #[verifier::type_invariant]
    spec fn well_formed(&self) -> bool {
        distinct(self.names())
    }

    /// An empty mapping.
    pub fn new() -> (p: Params)
        ensures
            p@ == Map::<Seq<char>, Seq<char>>::empty(),
    {
        let p = Params { entries: Vec::new() };
        assert(p.names() =~= Seq::empty());
        assert(to_map(p.names(), p.values()) =~= Map::empty());
        p
    }

    /// How many names the mapping holds.
    pub fn len(&self) -> (n: usize)
        ensures
            n == self@.len(),
            self@.dom().finite(),
    {
        proof {
            use_type_invariant(self);
            self.lemma_domain();
        }
        self.entries.len()
    }

    /// Whether the mapping holds no name.
    pub fn is_empty(&self) -> (r: bool)
        ensures
            r == (self@ == Map::<Seq<char>, Seq<char>>::empty()),
    {
        proof {
            use_type_invariant(self);
            self.lemma_domain();
            if self.entries@.len() == 0 {
                assert(self@ =~= Map::empty());
            } else {
                lemma_position(self.names(), self.names()[0]);
                assert(self@.dom().contains(self.names()[0]));
            }
        }
        self.entries.len() == 0
    }

    /// The domain of the mapping is the set of the names, and has as many
    /// elements as there are entries.
    proof fn lemma_domain(&self)
        requires
            distinct(self.names()),
        ensures
            self@.dom().finite(),
            self@.dom().len() == self.entries@.len(),
            self@.dom() == self.names().to_set(),
    {
        let names = self.names();
        assert(self@.dom() =~= names.to_set()) by {
            assert forall|k: Seq<char>| self@.dom().contains(k) == names.to_set().contains(k) by {
                lemma_position(names, k);
                if names.to_set().contains(k) {
                    let i = choose|i: int| 0 <= i < names.len() && names[i] == k;
                    assert(position(names, k) <= i);
                }
            }
        }
        names.unique_seq_to_set();
    }

    /// The place of `key` among the names, or the number of names where it
    /// is not among them.
    fn find(&self, key: &[char]) -> (i: usize)
        ensures
            i == position(self.names(), key@),
            i <= self.entries@.len(),
    {
        let mut i: usize = 0;
        while i < self.entries.len() && !spells(key, self.entries[i].0.as_str())
            invariant
                i <= self.entries@.len(),
                forall|j: int| 0 <= j < i ==> self.names()[j] != key@,
            decreases self.entries@.len() - i,
        {
            i += 1;
        }
        proof {
            lemma_position_is(self.names(), key@, i as int);
        }
        i
    }

    /// The value given for `key`, if one was given.
    pub fn get(&self, key: &str) -> (r: Option<&String>)
        ensures
            match r {
                Some(value) => self@.contains_key(key@) && value@ == self@[key@],
                None => !self@.contains_key(key@),
            },
    {
        let chars = chars_of(key);
        let i = self.find(chars.as_slice());
        if i < self.entries.len() {
            Some(&self.entries[i].1)
        } else {
            None
        }
    }

    /// Whether a value was given for `key`.
    pub fn contains_key(&self, key: &str) -> (r: bool)
        ensures
            r == self@.contains_key(key@),
    {
        let chars = chars_of(key);
        let i = self.find(chars.as_slice());
        i < self.entries.len()
    }

    /// Gives `key` the value `value`, in place of the value it had if it had
    /// one. Returns that earlier value.
    pub fn insert(&mut self, key: String, value: String) -> (earlier: Option<String>)
        ensures
            final(self)@ == old(self)@.insert(key@, value@),
            match earlier {
                Some(v) => old(self)@.contains_key(key@) && v@ == old(self)@[key@],
                None => !old(self)@.contains_key(key@),
            },
    {
        proof {
            use_type_invariant(&*self);
        }
        let chars = chars_of(key.as_str());
        let i = self.find(chars.as_slice());
        let ghost names = self.names();
        let ghost values = self.values();
        proof {
            lemma_position(names, key@);
        }
        let mut entries: Vec<(String, String)> = Vec::new();
        assert(Seq::new(0, |i: int| entries@[i].0@) =~= Seq::<Seq<char>>::empty());
        core::mem::swap(&mut self.entries, &mut entries);
        let earlier = if i < entries.len() {
            let earlier = entries[i].1.clone();
            proof {
                lemma_to_map_update(names, values, key@, value@);
            }
            entries.set(i, (key, value));
            assert(Seq::new(entries@.len(), |i: int| entries@[i].0@) =~= names);
            assert(Seq::new(entries@.len(), |i: int| entries@[i].1@) =~= values.update(
                i as int,
                value@,
            ));
            Some(earlier)
        } else {
            proof {
                lemma_to_map_push(names, values, key@, value@);
            }
            entries.push((key, value));
            assert(Seq::new(entries@.len(), |i: int| entries@[i].0@) =~= names.push(key@));
            assert(Seq::new(entries@.len(), |i: int| entries@[i].1@) =~= values.push(value@));
            None
        };
        core::mem::swap(&mut self.entries, &mut entries);
        earlier
    }
}

impl Params {
    /// Whether every name of `self` has in `other` the value it has in
    /// `self`.
    fn within(&self, other: &Params) -> (r: bool)
        ensures
            r == forall|key: Seq<char>| #[trigger]
                self@.contains_key(key) ==> other@.contains_key(key) && other@[key] == self@[key],
    {
        proof {
            use_type_invariant(self);
        }
        let mut i: usize = 0;
        while i < self.entries.len()
            invariant
                i <= self.entries@.len(),
                distinct(self.names()),
                forall|j: int|
                    0 <= j < i ==> other@.contains_key(#[trigger] self.names()[j]) && other@[self.names()[j]]
                        == self.values()[j],
            decreases self.entries@.len() - i,
        {
            let ghost key = self.names()[i as int];
            proof {
                lemma_position_is(self.names(), key, i as int);
            }
            match other.get(self.entries[i].0.as_str()) {
                Some(value) => {
                    if !(*value == self.entries[i].1) {
                        assert(self@.contains_key(key) && other@[key] != self@[key]);
                        return false;
                    }
                },
                None => {
                    assert(self@.contains_key(key) && !other@.contains_key(key));
                    return false;
                },
            }
            i += 1;
        }
        proof {
            assert forall|key: Seq<char>| #[trigger] self@.contains_key(key) implies other@.contains_key(
                key,
            ) && other@[key] == self@[key] by {
                lemma_position(self.names(), key);
                let j = position(self.names(), key);
                assert(self.names()[j] == key);
            }
        }
        true
    }
}

impl PartialEq for Params {
    /// Two mappings are equal where they hold the same names with the same
    /// values, in whatever order.
    fn eq(&self, other: &Params) -> (r: bool) {
        let r = self.within(other) && other.within(self);
        proof {
            if r {
                assert(self@ =~= other@);
            }
        }
        r
    }
}

impl Eq for Params {

}

impl vstd::std_specs::cmp::PartialEqSpecImpl for Params {
    open spec fn obeys_eq_spec() -> bool {
        true
    }

    open spec fn eq_spec(&self, other: &Params) -> bool {
        self@ == other@
    }
}

impl Clone for Params {
    fn clone(&self) -> (copy: Params)
        ensures
            copy@ == self@,
    {
        proof {
            use_type_invariant(self);
        }
        let mut entries: Vec<(String, String)> = Vec::new();
        let mut i: usize = 0;
        while i < self.entries.len()
            invariant
                i <= self.entries@.len(),
                entries@.len() == i,
                forall|j: int| 0 <= j < i ==> entries@[j].0@ == self.entries@[j].0@ && entries@[j].1@
                    == self.entries@[j].1@,
            decreases self.entries@.len() - i,
        {
            entries.push((self.entries[i].0.clone(), self.entries[i].1.clone()));
            i += 1;
        }
        assert(Seq::new(entries@.len(), |i: int| entries@[i].0@) =~= self.names());
        assert(Seq::new(entries@.len(), |i: int| entries@[i].1@) =~= self.values());
        Params { entries }
    }
}

impl core::ops::Index<&str> for Params {
    type Output = String;

    /// The value given for `key`. A key for which none was given has no
    /// value to index.
    fn index(&self, key: &str) -> (value: &String)
        ensures
            value@ == self@[key@],
    {
        let chars = chars_of(key);
        let i = self.find(chars.as_slice());
        &self.entries[i].1
    }
}

impl vstd::std_specs::core::IndexSpecImpl<&str> for Params {
    open spec fn index_req(&self, key: &&str) -> bool {
        self@.contains_key(key@)
    }
}

impl View for Params {
    type V = Map<Seq<char>, Seq<char>>;

    /// The mapping from names to values.
    open spec fn view(&self) -> Map<Seq<char>, Seq<char>> {
        to_map(self.names(), self.values())
    }
}

} // verus!
