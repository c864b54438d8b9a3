//! The header mapping of a message: header names with their values, a name
//! held once whatever its case.

use crate::assoc::{distinct, lemma_position, lemma_position_is, lemma_to_map_push, lemma_to_map_update, position, to_map};
use crate::models::http::header::HTTPHeaderType;
use crate::text::{chars_of, lower_seq, spells_ignoring_case};
use vstd::prelude::*;
use vstd::string::StringExecFns;

verus! {

/// The canonical names of `entries`, place by place.
pub open spec fn canonical_names(entries: Seq<(Seq<char>, Seq<char>)>) -> Seq<Seq<char>> {
    Seq::new(entries.len(), |i: int| lower_seq(entries[i].0))
}

/// The values of `entries`, place by place.
pub open spec fn values_of(entries: Seq<(Seq<char>, Seq<char>)>) -> Seq<Seq<char>> {
    Seq::new(entries.len(), |i: int| entries[i].1)
}

/// `entries` after the header `name` was given `value`: where a header of
/// the same canonical name is held, the new line takes its place; otherwise
/// the new line comes last.
pub open spec fn put(entries: Seq<(Seq<char>, Seq<char>)>, name: Seq<char>, value: Seq<char>) -> Seq<
    (Seq<char>, Seq<char>),
> {
    let i = position(canonical_names(entries), lower_seq(name));
    if i < entries.len() {
        entries.update(i, (name, value))
    } else {
        entries.push((name, value))
    }
}

/// The header lines for `entries` as they stand on the wire: for each, the
/// name, a colon and a space, the value, and the end of the line.
pub open spec fn header_lines(entries: Seq<(Seq<char>, Seq<char>)>) -> Seq<char>
    decreases entries.len(),
{
    if entries.len() == 0 {
        Seq::empty()
    } else {
        header_lines(entries.drop_last()) + entries.last().0 + seq![':', ' '] + entries.last().1
            + seq!['\r', '\n']
    }
}

/// A mapping from header names to values. Names are compared by their
/// canonical spelling, so a header is held once whatever its case; the
/// entries keep the order in which their names first came.
#[derive(Debug)]
pub struct Headers {
    lines: Vec<(String, String)>,
}

impl Headers {
    /// The headers held: the spelling of each name and its value, in order.
    pub closed spec fn entries(&self) -> Seq<(Seq<char>, Seq<char>)> {
        Seq::new(self.lines@.len(), |i: int| (self.lines@[i].0@, self.lines@[i].1@))
    }

    #[verifier::type_invariant]
    spec fn well_formed(&self) -> bool {
        distinct(canonical_names(self.entries()))
    }

    /// An empty mapping.
    pub fn new() -> (h: Headers)
        ensures
            h.entries() == Seq::<(Seq<char>, Seq<char>)>::empty(),
            h@ == Map::<Seq<char>, Seq<char>>::empty(),
    {
        let h = Headers { lines: Vec::new() };
        assert(h.entries() =~= Seq::empty());
        assert(canonical_names(h.entries()) =~= Seq::empty());
        assert(h@ =~= Map::empty());
        h
    }

    /// How many headers the mapping holds.
    pub fn len(&self) -> (n: usize)
        ensures
            n == self.entries().len(),
            n == self@.len(),
            self@.dom().finite(),
    {
        proof {
            use_type_invariant(self);
            self.lemma_domain();
        }
        self.lines.len()
    }

    /// Whether the mapping holds no header.
    pub fn is_empty(&self) -> (r: bool)
        ensures
            r == (self.entries().len() == 0),
            r == (self@ == Map::<Seq<char>, Seq<char>>::empty()),
    {
        proof {
            use_type_invariant(self);
            self.lemma_domain();
            if self.lines@.len() == 0 {
                assert(self@ =~= Map::empty());
            } else {
                let names = canonical_names(self.entries());
                lemma_position(names, names[0]);
                assert(self@.dom().contains(names[0]));
            }
        }
        self.lines.len() == 0
    }

    /// The domain of the mapping is the set of the canonical names, and has
    /// as many elements as there are entries.
    proof fn lemma_domain(&self)
        requires
            distinct(canonical_names(self.entries())),
        ensures
            self@.dom().finite(),
            self@.dom().len() == self.entries().len(),
    {
        let names = canonical_names(self.entries());
        assert(self@.dom() =~= names.to_set()) by {
            assert forall|k: Seq<char>| self@.dom().contains(k) == names.to_set().contains(k) by {
                lemma_position(names, k);
                if names.to_set().contains(k) {
                    let i = choose|i: int| 0 <= i < names.len() && names[i] == k;
                    assert(position(names, k) <= i);
                }
            }
        }
        names.unique_seq_to_set();
    }

    /// The place of the header `name` among the entries, or the number of
    /// entries where it is not among them.
    fn find(&self, name: &[char]) -> (i: usize)
        ensures
            i == position(canonical_names(self.entries()), lower_seq(name@)),
            i <= self.lines@.len(),
    {
        let mut i: usize = 0;
        while i < self.lines.len() && !spells_ignoring_case(name, self.lines[i].0.as_str())
            invariant
                i <= self.lines@.len(),
                forall|j: int| 0 <= j < i ==> canonical_names(self.entries())[j] != lower_seq(name@),
            decreases self.lines@.len() - i,
        {
            i += 1;
        }
        proof {
            lemma_position_is(canonical_names(self.entries()), lower_seq(name@), i as int);
        }
        i
    }

    /// The value of the header `name`, if the mapping holds it.
    pub fn get(&self, name: &HTTPHeaderType) -> (r: Option<&String>)
        ensures
            match r {
                Some(value) => self@.contains_key(name.canonical()) && value@ == self@[name.canonical()],
                None => !self@.contains_key(name.canonical()),
            },
    {
        let chars = chars_of(name.as_str());
        let i = self.find(chars.as_slice());
        if i < self.lines.len() {
            Some(&self.lines[i].1)
        } else {
            None
        }
    }

    /// Whether the mapping holds the header `name`.
    pub fn contains_key(&self, name: &HTTPHeaderType) -> (r: bool)
        ensures
            r == self@.contains_key(name.canonical()),
    {
        let chars = chars_of(name.as_str());
        let i = self.find(chars.as_slice());
        i < self.lines.len()
    }

    /// Gives the header `name` the value `value`, in place of the line held
    /// for that header if there is one. Returns the value of that earlier
    /// line.
    pub fn insert(&mut self, name: HTTPHeaderType, value: String) -> (earlier: Option<String>)
        ensures
            final(self).entries() == put(old(self).entries(), name.name(), value@),
            final(self)@ == old(self)@.insert(name.canonical(), value@),
            match earlier {
                Some(v) => old(self)@.contains_key(name.canonical()) && v@ == old(self)@[name.canonical()],
                None => !old(self)@.contains_key(name.canonical()),
            },
    {
        proof {
            use_type_invariant(&*self);
        }
        let spelling = name.to_string();
        let chars = chars_of(spelling.as_str());
        let i = self.find(chars.as_slice());
        let ghost entries = self.entries();
        let ghost names = canonical_names(entries);
        let ghost values = values_of(entries);
        let ghost key = name.canonical();
        proof {
            lemma_position(names, key);
        }
        let mut lines: Vec<(String, String)> = Vec::new();
        assert(canonical_names(Seq::new(0, |i: int| (lines@[i].0@, lines@[i].1@))) =~= Seq::<
            Seq<char>,
        >::empty());
        core::mem::swap(&mut self.lines, &mut lines);
        let earlier = if i < lines.len() {
            let earlier = lines[i].1.clone();
            proof {
                lemma_to_map_update(names, values, key, value@);
            }
            lines.set(i, (spelling, value));
            let ghost after = Seq::new(lines@.len(), |i: int| (lines@[i].0@, lines@[i].1@));
            assert(after =~= entries.update(i as int, (name.name(), value@)));
            assert(canonical_names(after) =~= names);
            assert(values_of(after) =~= values.update(i as int, value@));
            Some(earlier)
        } else {
            proof {
                lemma_to_map_push(names, values, key, value@);
            }
            lines.push((spelling, value));
            let ghost after = Seq::new(lines@.len(), |i: int| (lines@[i].0@, lines@[i].1@));
            assert(after =~= entries.push((name.name(), value@)));
            assert(canonical_names(after) =~= names.push(key));
            assert(values_of(after) =~= values.push(value@));
            None
        };
        core::mem::swap(&mut self.lines, &mut lines);
        earlier
    }

    /// The header at place `index` in the order of the entries: the
    /// spelling of its name and its value; `None` behind the last entry.
    pub fn get_index(&self, index: usize) -> (r: Option<(&str, &str)>)
        ensures
            match r {
                Some((name, value)) => index < self.entries().len() && name@ == self.entries()[index as int].0
                    && value@ == self.entries()[index as int].1,
                None => index >= self.entries().len(),
            },
    {
        if index < self.lines.len() {
            Some((self.lines[index].0.as_str(), self.lines[index].1.as_str()))
        } else {
            None
        }
    }

    /// Appends the header lines to `out`, in the order of the entries.
    pub fn push_lines(&self, out: &mut String)
        ensures
            final(out)@ == old(out)@ + header_lines(self.entries()),
    {
        let mut i: usize = 0;
        assert(self.entries().take(0) =~= Seq::empty());
        while i < self.lines.len()
            invariant
                i <= self.lines@.len(),
                out@ == old(out)@ + header_lines(self.entries().take(i as int)),
            decreases self.lines@.len() - i,
        {
            let ghost before = out@;
            out.append(self.lines[i].0.as_str());
            out.push(':');
            out.push(' ');
            out.append(self.lines[i].1.as_str());
            out.push('\r');
            out.push('\n');
            proof {
                let taken = self.entries().take(i + 1);
                let line = self.entries()[i as int];
                assert(taken.drop_last() =~= self.entries().take(i as int));
                assert(taken.last() == line);
                assert(out@ =~= before + line.0 + seq![':', ' '] + line.1 + seq!['\r', '\n']);
                assert(out@ =~= old(out)@ + header_lines(taken));
            }
            i += 1;
        }
        assert(self.entries().take(self.lines@.len() as int) =~= self.entries());
    }
}

impl Headers {
    /// Whether every header of `self` has in `other` the value it has in
    /// `self`.
    fn within(&self, other: &Headers) -> (r: bool)
        ensures
            r == forall|key: Seq<char>| #[trigger]
                self@.contains_key(key) ==> other@.contains_key(key) && other@[key] == self@[key],
    {
        proof {
            use_type_invariant(self);
        }
        let ghost names = canonical_names(self.entries());
        let ghost values = values_of(self.entries());
        let mut i: usize = 0;
        while i < self.lines.len()
            invariant
                i <= self.lines@.len(),
                names == canonical_names(self.entries()),
                values == values_of(self.entries()),
                distinct(names),
                forall|j: int|
                    0 <= j < i ==> other@.contains_key(#[trigger] names[j]) && other@[names[j]]
                        == values[j],
            decreases self.lines@.len() - i,
        {
            let ghost key = names[i as int];
            proof {
                lemma_position_is(names, key, i as int);
            }
            let chars = chars_of(self.lines[i].0.as_str());
            let j = other.find(chars.as_slice());
            if j >= other.lines.len() {
                assert(self@.contains_key(key) && !other@.contains_key(key));
                return false;
            }
            if !(other.lines[j].1 == self.lines[i].1) {
                assert(self@.contains_key(key) && other@[key] != self@[key]);
                return false;
            }
            i += 1;
        }
        proof {
            assert forall|key: Seq<char>| #[trigger] self@.contains_key(key) implies other@.contains_key(
                key,
            ) && other@[key] == self@[key] by {
                lemma_position(names, key);
                let j = position(names, key);
                assert(names[j] == key);
            }
        }
        true
    }
}

impl PartialEq for Headers {
    /// Two mappings are equal where they hold the same headers with the
    /// same values, in whatever order and spelling.
    fn eq(&self, other: &Headers) -> (r: bool) {
        let r = self.within(other) && other.within(self);
        proof {
            if r {
                assert(self@ =~= other@);
            }
        }
        r
    }
}

impl Eq for Headers {

}

impl vstd::std_specs::cmp::PartialEqSpecImpl for Headers {
    open spec fn obeys_eq_spec() -> bool {
        true
    }

    open spec fn eq_spec(&self, other: &Headers) -> bool {
        self@ == other@
    }
}

impl Clone for Headers {
    fn clone(&self) -> (copy: Headers)
        ensures
            copy.entries() == self.entries(),
            copy@ == self@,
    {
        proof {
            use_type_invariant(self);
        }
        let mut lines: Vec<(String, String)> = Vec::new();
        let mut i: usize = 0;
        while i < self.lines.len()
            invariant
                i <= self.lines@.len(),
                lines@.len() == i,
                forall|j: int| 0 <= j < i ==> lines@[j].0@ == self.lines@[j].0@ && lines@[j].1@
                    == self.lines@[j].1@,
            decreases self.lines@.len() - i,
        {
            lines.push((self.lines[i].0.clone(), self.lines[i].1.clone()));
            i += 1;
        }
        assert(Seq::new(lines@.len(), |i: int| (lines@[i].0@, lines@[i].1@)) =~= self.entries());
        Headers { lines }
    }
}

impl View for Headers {
    type V = Map<Seq<char>, Seq<char>>;

    /// The mapping from canonical header names to values.
    open spec fn view(&self) -> Map<Seq<char>, Seq<char>> {
        to_map(canonical_names(self.entries()), values_of(self.entries()))
    }
}

} // verus!
