//! A small association table from names to values.
//!
//! Entries are kept in insertion order and a later insertion of the same
//! name shadows the earlier one, so lookup scans from the newest entry
//! backwards.  Every stage that needs a name-keyed map (type environments,
//! scope frames, aggregate registries, variable tables) uses this one shape.

use vstd::prelude::*;

verus! {

/// The value bound to `key` in `entries`, taking the newest binding.
pub open spec fn assoc_lookup<V>(entries: Seq<(String, V)>, key: Seq<char>) -> Option<V>
    decreases entries.len(),
{
    if entries.len() == 0 {
        Option::None
    } else if entries.last().0@ == key {
        Option::Some(entries.last().1)
    } else {
        assoc_lookup(entries.drop_last(), key)
    }
}

/// A name-keyed table; the newest binding of a name wins.
pub struct NameTable<V> {
    pub entries: Vec<(String, V)>,
}

impl<V> View for NameTable<V> {
    type V = Seq<(String, V)>;

    open spec fn view(&self) -> Seq<(String, V)> {
        self.entries@
    }
}

impl<V> NameTable<V> {
    /// An empty table.
    pub fn new() -> (t: Self)
        ensures
            t@ =~= Seq::<(String, V)>::empty(),
    {
        NameTable { entries: Vec::new() }
    }

    /// Binds `name` to `value`, shadowing any earlier binding.
    pub fn insert(&mut self, name: String, value: V)
        ensures
            final(self)@ == old(self)@.push((name, value)),
    {
        self.entries.push((name, value));
    }

    /// The newest binding of `name`, if any.
    pub fn get(&self, name: &str) -> (r: Option<&V>)
        ensures
            match r {
                Option::Some(v) => assoc_lookup(self@, name@) == Option::Some(*v),
                Option::None => assoc_lookup(self@, name@) is None,
            },
    {
        let n = self.entries.len();
        let mut i: usize = n;
        proof {
            assert(self@.take(n as int) =~= self@);
        }
        while i > 0
            invariant
                i <= n,
                n == self.entries.len(),
                assoc_lookup(self@, name@) == assoc_lookup(self@.take(i as int), name@),
            decreases i,
        {
            i = i - 1;
            let entry_name: &String = &self.entries[i].0;
            if str_eq_string(name, entry_name) {
                proof {
                    assert(self@.take(i + 1 as int).last() == self@[i as int]);
                }
                return Option::Some(&self.entries[i].1);
            }
            proof {
                assert(self@.take(i + 1 as int).last() == self@[i as int]);
                assert(self@.take(i + 1 as int).drop_last() =~= self@.take(i as int));
            }
        }
        proof {
            assert(self@.take(0) =~= Seq::<(String, V)>::empty());
        }
        Option::None
    }

    /// Whether `name` is bound.
    pub fn contains(&self, name: &str) -> (r: bool)
        ensures
            r == (assoc_lookup(self@, name@) is Some),
    {
        self.get(name).is_some()
    }

    /// How many entries the table holds, shadowed ones included.
    pub fn len(&self) -> (n: usize)
        ensures
            n == self@.len(),
    {
        self.entries.len()
    }
}

/// Content equality of a string slice and an owned string.
pub fn str_eq_string(a: &str, b: &String) -> (r: bool)
    ensures
        r == (a@ == b@),
{
    let a_owned: String = a.to_owned();
    a_owned == *b
}

} // verus!
