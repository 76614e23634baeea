//! A small ordered table keyed by name, in which no name occurs twice.

use vstd::prelude::*;
use vstd::string::*;

verus! {

/// No two entries of `s` carry the same name.
pub open spec fn unique_names<T>(s: Seq<(Seq<char>, T)>) -> bool {
    forall|i: int, j: int| 0 <= i < j < s.len() ==> #[trigger] s[i].0 != #[trigger] s[j].0
}

/// Some entry of `s` carries `name`.
pub open spec fn has_name<T>(s: Seq<(Seq<char>, T)>, name: Seq<char>) -> bool {
    exists|i: int| 0 <= i < s.len() && #[trigger] s[i].0 == name
}

/// `after` is `before` with `value` put under `name`: in place of the entry
/// that had the name, or as a new last entry.
pub open spec fn put<T>(
    before: Seq<(Seq<char>, T)>,
    name: Seq<char>,
    value: T,
    after: Seq<(Seq<char>, T)>,
) -> bool {
    if has_name(before, name) {
        exists|i: int|
            0 <= i < before.len() && (#[trigger] before[i]).0 == name && after == before.update(
                i,
                (name, value),
            )
    } else {
        after == before.push((name, value))
    }
}

/// The mapping that the entries of `s` describe; of two entries with one name
/// the later one counts.
pub open spec fn mapping_of<T>(s: Seq<(Seq<char>, T)>) -> Map<Seq<char>, T>
    decreases s.len(),
{
    if s.len() == 0 {
        Map::empty()
    } else {
        mapping_of(s.drop_last()).insert(s.last().0, s.last().1)
    }
}

/// The names of a mapping are exactly the names of its entries.
pub proof fn lemma_mapping_names<T>(s: Seq<(Seq<char>, T)>, name: Seq<char>)
    ensures
        mapping_of(s).contains_key(name) == has_name(s, name),
    decreases s.len(),
{
    if s.len() > 0 {
        lemma_mapping_names(s.drop_last(), name);
        if has_name(s, name) {
            let i = choose|i: int| 0 <= i < s.len() && #[trigger] s[i].0 == name;
            if i < s.len() - 1 {
                assert(s.drop_last()[i].0 == name);
            }
        }
        if has_name(s.drop_last(), name) {
            let i = choose|i: int| 0 <= i < s.len() - 1 && #[trigger] s.drop_last()[i].0 == name;
            assert(s[i].0 == name);
        }
        if s.last().0 == name {
            assert(s[s.len() - 1].0 == name);
        }
    }
}

/// Where no name occurs twice, each entry is what the mapping holds under its
/// name.
pub proof fn lemma_mapping_entry<T>(s: Seq<(Seq<char>, T)>, i: int)
    requires
        unique_names(s),
        0 <= i < s.len(),
    ensures
        mapping_of(s).contains_key(s[i].0),
        mapping_of(s)[s[i].0] == s[i].1,
    decreases s.len(),
{
    if i < s.len() - 1 {
        lemma_mapping_entry(s.drop_last(), i);
        assert(s.drop_last()[i] == s[i]);
        assert(s[i].0 != s[s.len() - 1].0);
    }
}

/// Adding an entry under a new name inserts it into the mapping.
pub proof fn lemma_mapping_push<T>(s: Seq<(Seq<char>, T)>, name: Seq<char>, value: T)
    ensures
        mapping_of(s.push((name, value))) == mapping_of(s).insert(name, value),
{
    assert(s.push((name, value)).drop_last() =~= s);
}

/// Replacing the only entry under a name inserts the new value into the
/// mapping.
pub proof fn lemma_mapping_update<T>(s: Seq<(Seq<char>, T)>, i: int, value: T)
    requires
        unique_names(s),
        0 <= i < s.len(),
    ensures
        mapping_of(s.update(i, (s[i].0, value))) == mapping_of(s).insert(s[i].0, value),
        unique_names(s.update(i, (s[i].0, value))),
    decreases s.len(),
{
    let t = s.update(i, (s[i].0, value));
    if i == s.len() - 1 {
        assert(t.drop_last() =~= s.drop_last());
        assert(mapping_of(t) =~= mapping_of(s).insert(s[i].0, value));
    } else {
        lemma_mapping_update(s.drop_last(), i, value);
        assert(s.drop_last()[i] == s[i]);
        assert(t.drop_last() =~= s.drop_last().update(i, (s[i].0, value)));
        assert(s[i].0 != s[s.len() - 1].0);
        assert(mapping_of(t) =~= mapping_of(s).insert(s[i].0, value));
    }
}

/// Entries in insertion order, each under a name that no other entry has.
#[derive(Debug)]
pub struct Table<T> {
    entries: Vec<(String, T)>,
}

impl<T> View for Table<T> {
    type V = Seq<(Seq<char>, T)>;

    closed spec fn view(&self) -> Seq<(Seq<char>, T)> {
        Seq::new(self.entries@.len(), |i: int| (self.entries@[i].0@, self.entries@[i].1))
    }
}

impl<T> Table<T> {
    #[verifier::type_invariant]
    spec fn inv(&self) -> bool {
        unique_names(self@)
    }

    /// The table as a mapping from name to value.
    pub open spec fn as_map(&self) -> Map<Seq<char>, T> {
        mapping_of(self@)
    }

    /// The empty table.
    pub fn new() -> (r: Self)
        ensures
            r@ == Seq::<(Seq<char>, T)>::empty(),
    {
        let r = Table { entries: Vec::new() };
        assert(r@ =~= Seq::<(Seq<char>, T)>::empty());
        r
    }

    /// Number of entries. No two of them have the same name.
    pub fn len(&self) -> (r: usize)
        ensures
            r == self@.len(),
            unique_names(self@),
    {
        proof {
            use_type_invariant(self);
        }
        self.entries.len()
    }

    /// Name of the entry at position `i`.
    pub fn name_at(&self, i: usize) -> (r: &str)
        requires
            i < self@.len(),
        ensures
            r@ == self@[i as int].0,
    {
        self.entries[i].0.as_str()
    }

    /// Value of the entry at position `i`.
    pub fn value_at(&self, i: usize) -> (r: &T)
        requires
            i < self@.len(),
        ensures
            *r == self@[i as int].1,
    {
        &self.entries[i].1
    }

    /// Position of the entry under `name`.
    pub fn position(&self, name: &str) -> (r: Option<usize>)
        ensures
            r.is_some() == has_name(self@, name@),
            r.is_some() ==> r.unwrap() < self@.len() && self@[r.unwrap() as int].0 == name@,
    {
        let key = String::from_str(name);
        let mut i: usize = 0;
        while i < self.entries.len()
            invariant
                key@ == name@,
                i <= self.entries.len(),
                forall|j: int| 0 <= j < i ==> (#[trigger] self@[j]).0 != name@,
            decreases self.entries.len() - i,
        {
            if self.entries[i].0 == key {
                assert(self@[i as int].0 == name@);
                return Some(i);
            }
            i += 1;
        }
        None
    }

    /// The value under `name`, if the table has one.
    pub fn get(&self, name: &str) -> (r: Option<&T>)
        ensures
            r.is_some() == self.as_map().contains_key(name@),
            r.is_some() ==> *r.unwrap() == self.as_map()[name@],
    {
        proof {
            use_type_invariant(self);
            lemma_mapping_names(self@, name@);
        }
        match self.position(name) {
            Some(i) => {
                proof {
                    lemma_mapping_entry(self@, i as int);
                }
                Some(&self.entries[i].1)
            },
            None => None,
        }
    }

    /// Puts `value` under `name`: in place of the value that was there, or as
    /// a new last entry.
    pub fn insert(self, name: String, value: T) -> (r: Self)
        ensures
            put(self@, name@, value, r@),
            r.as_map() == self.as_map().insert(name@, value),
            unique_names(r@),
    {
        proof {
            use_type_invariant(&self);
        }
        let ghost before = self@;
        let found = self.position(name.as_str());
        let mut entries = self.entries;
        match found {
            Some(i) => {
                proof {
                    lemma_mapping_update(before, i as int, value);
                }
                entries.set(i, (name, value));
                let ghost after = Seq::new(
                    entries@.len(),
                    |i: int| (entries@[i].0@, entries@[i].1),
                );
                assert(after =~= before.update(i as int, (name@, value)));
                Table { entries }
            },
            None => {
                proof {
                    lemma_mapping_push(before, name@, value);
                }
                entries.push((name, value));
                let ghost after = Seq::new(
                    entries@.len(),
                    |i: int| (entries@[i].0@, entries@[i].1),
                );
                assert(after =~= before.push((name@, value)));
                assert(unique_names(after)) by {
                    assert forall|a: int, b: int| 0 <= a < b < after.len() implies after[a].0
                        != after[b].0 by {
                        if b == after.len() - 1 {
                            assert(before[a].0 != name@);
                        }
                    }
                }
                Table { entries }
            },
        }
    }
}

} // verus!
