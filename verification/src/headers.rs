//! Header lists: ordered `(name, value)` pairs in which a name may repeat.
//!
//! A list is read as a mapping by letting a later pair of a name replace an
//! earlier one. Names are compared exactly, character by character.

use vstd::prelude::*;

verus! {

/// One header as a mathematical value: its name, then its value.
pub type Header = (Seq<char>, Seq<char>);

/// The pairs of an executable list as mathematical values, in order.
pub open spec fn pairs_view(pairs: Seq<(String, String)>) -> Seq<Header> {
    Seq::new(pairs.len(), |i: int| (pairs[i].0@, pairs[i].1@))
}

/// The mapping that results from inserting the pairs one after another, so
/// that a later pair replaces an earlier pair of the same name.
pub open spec fn header_mapping(entries: Seq<Header>) -> Map<Seq<char>, Seq<char>>
    decreases entries.len(),
{
    if entries.len() == 0 {
        Map::empty()
    } else {
        header_mapping(entries.drop_last()).insert(entries.last().0, entries.last().1)
    }
}

/// The value of the last pair named `name`, if there is one.
pub open spec fn last_value(entries: Seq<Header>, name: Seq<char>) -> Option<Seq<char>>
    decreases entries.len(),
{
    if entries.len() == 0 {
        None
    } else if entries.last().0 == name {
        Some(entries.last().1)
    } else {
        last_value(entries.drop_last(), name)
    }
}

/// Looking a name up in the mapping gives the value of its last pair.
pub proof fn law_lookup_is_the_mapping(entries: Seq<Header>, name: Seq<char>)
    ensures
        last_value(entries, name) == if header_mapping(entries).contains_key(name) {
            Some(header_mapping(entries)[name])
        } else {
            None
        },
    decreases entries.len(),
{
    if entries.len() > 0 {
        law_lookup_is_the_mapping(entries.drop_last(), name);
    }
}

/// Last write wins: a pair named `name` at position `at` decides the lookup
/// when no later pair carries that name.
pub proof fn law_last_write_wins(entries: Seq<Header>, name: Seq<char>, at: int)
    requires
        0 <= at < entries.len(),
        entries[at].0 == name,
        forall|j: int| at < j < entries.len() ==> entries[j].0 != name,
    ensures
        last_value(entries, name) == Some(entries[at].1),
    decreases entries.len(),
{
    if at < entries.len() - 1 {
        law_last_write_wins(entries.drop_last(), name, at);
    }
}

/// A name that no pair carries is not found.
pub proof fn law_absent_name_is_not_found(entries: Seq<Header>, name: Seq<char>)
    ensures
        last_value(entries, name) is None <==> forall|i: int|
            0 <= i < entries.len() ==> entries[i].0 != name,
    decreases entries.len(),
{
    if entries.len() > 0 {
        law_absent_name_is_not_found(entries.drop_last(), name);
        if entries.last().0 != name {
            assert forall|i: int| 0 <= i < entries.len() && last_value(entries, name) is None
                implies entries[i].0 != name by {
                if i < entries.len() - 1 {
                    assert(entries.drop_last()[i] == entries[i]);
                }
            }
            if forall|i: int| 0 <= i < entries.len() ==> entries[i].0 != name {
                assert forall|i: int| 0 <= i < entries.drop_last().len() implies entries.drop_last()[i].0
                    != name by {
                    assert(entries.drop_last()[i] == entries[i]);
                }
            }
        }
    }
}

/// An ordered list of headers.
#[derive(PartialEq, Eq, Debug)]
pub struct HeaderMap {
    entries: Vec<(String, String)>,
}

impl Clone for HeaderMap {
    /// An independent list of the same pairs in the same order.
    fn clone(&self) -> (copy: HeaderMap)
        ensures
            copy@ == self@,
    {
        let mut entries: Vec<(String, String)> = Vec::new();
        let mut i: usize = 0;
        while i < self.entries.len()
            invariant
                i <= self.entries.len(),
                entries.len() == i,
                forall|j: int|
                    0 <= j < i ==> entries@[j].0@ == self.entries@[j].0@ && entries@[j].1@
                        == self.entries@[j].1@,
            decreases self.entries.len() - i,
        {
            entries.push((self.entries[i].0.clone(), self.entries[i].1.clone()));
            i += 1;
        }
        let copy = HeaderMap { entries };
        assert(copy@ =~= self@);
        copy
    }
}

impl View for HeaderMap {
    type V = Seq<Header>;

    open spec fn view(&self) -> Seq<Header> {
        pairs_view(self.pairs())
    }
}

impl HeaderMap {
    /// The stored pairs, in order.
    pub closed spec fn pairs(&self) -> Seq<(String, String)> {
        self.entries@
    }

    /// The empty list.
    pub fn new() -> (list: HeaderMap)
        ensures
            list@ == Seq::<Header>::empty(),
    {
        HeaderMap { entries: Vec::new() }
    }

    /// The list that holds `pairs` in their order.
    pub fn from_pairs(pairs: Vec<(String, String)>) -> (list: HeaderMap)
        ensures
            list@ == pairs_view(pairs@),
            list.pairs() == pairs@,
    {
        HeaderMap { entries: pairs }
    }

    /// Hands the pairs back, in their order.
    pub fn into_pairs(self) -> (pairs: Vec<(String, String)>)
        ensures
            pairs@ == self.pairs(),
            pairs_view(pairs@) == self@,
    {
        self.entries
    }

    /// How many pairs the list holds, repeated names counted each time.
    pub fn len(&self) -> (n: usize)
        ensures
            n == self@.len(),
    {
        self.entries.len()
    }

    /// Adds a pair behind all others.
    pub fn push(&mut self, name: String, value: String)
        ensures
            final(self)@ == old(self)@.push((name@, value@)),
    {
        self.entries.push((name, value));
        assert(self@ =~= old(self)@.push((name@, value@)));
    }

    /// The value that the list maps `name` to: that of the last pair of that
    /// name.
    pub fn get(&self, name: &str) -> (found: Option<&String>)
        ensures
            match found {
                Some(value) => last_value(self@, name@) == Some(value@),
                None => last_value(self@, name@) is None,
            },
    {
        let wanted = name.to_owned();
        let mut i: usize = self.entries.len();
        assert(self@.take(i as int) =~= self@);
        while i > 0
            invariant
                i <= self.entries.len(),
                wanted@ == name@,
                last_value(self@, name@) == last_value(self@.take(i as int), name@),
            decreases i,
        {
            i -= 1;
            assert(self@.take(i + 1).drop_last() =~= self@.take(i as int));
            assert(self@.take(i + 1).last() == self@[i as int]);
            if self.entries[i].0 == wanted {
                return Some(&self.entries[i].1);
            }
        }
        None
    }
}

} // verus!
