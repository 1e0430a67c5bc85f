//! The environment accessor: an in-memory mapping from names to raw
//! string values, viewed abstractly as a `Map<Seq<char>, Seq<char>>`.
//! A later entry for the same name shadows an earlier one.

use vstd::prelude::*;

verus! {

/// The abstract mapping denoted by a sequence of name/value entries,
/// later entries overriding earlier ones.
pub open spec fn entries_map(s: Seq<(String, String)>) -> Map<Seq<char>, Seq<char>>
    decreases s.len(),
{
    if s.len() == 0 {
        Map::empty()
    } else {
        entries_map(s.drop_last()).insert(s.last().0@, s.last().1@)
    }
}

/// If entry `i` holds the key and no later entry does, the map built
/// from the entries contains the key and carries entry `i`'s value.
proof fn lemma_entries_map_found(s: Seq<(String, String)>, k: Seq<char>, i: int)
    requires
        0 <= i < s.len(),
        s[i].0@ == k,
        forall|j: int| i < j < s.len() ==> s[j].0@ != k,
    ensures
        entries_map(s).contains_key(k),
        entries_map(s)[k] == s[i].1@,
    decreases s.len(),
{
    if i == s.len() - 1 {
    } else {
        lemma_entries_map_found(s.drop_last(), k, i);
    }
}

/// If no entry holds the key, the map built from the entries does not
/// contain it.
proof fn lemma_entries_map_absent(s: Seq<(String, String)>, k: Seq<char>)
    requires
        forall|j: int| 0 <= j < s.len() ==> s[j].0@ != k,
    ensures
        !entries_map(s).contains_key(k),
    decreases s.len(),
{
    if s.len() > 0 {
        lemma_entries_map_absent(s.drop_last(), k);
    }
}

/// An in-memory environment accessor: a store of named raw string
/// values, queried by name.
pub struct EnvAccessor {
    entries: Vec<(String, String)>,
}

impl View for EnvAccessor {
    type V = Map<Seq<char>, Seq<char>>;

    closed spec fn view(&self) -> Map<Seq<char>, Seq<char>> {
        entries_map(self.entries@)
    }
}

impl EnvAccessor {
    /// An accessor with no values set.
    pub fn new() -> (r: Self)
        ensures
            r@ == Map::<Seq<char>, Seq<char>>::empty(),
    {
        EnvAccessor { entries: Vec::new() }
    }

    /// Set `name` to `value`, replacing any earlier value for `name`.
    pub fn set(&mut self, name: &str, value: &str)
        ensures
            final(self)@ == old(self)@.insert(name@, value@),
    {
        let pair = (name.to_owned(), value.to_owned());
        self.entries.push(pair);
        proof {
            assert(self.entries@.drop_last() =~= old(self).entries@);
        }
    }

    /// Look up the raw string value set for `name`, if any.
    pub fn lookup<'a>(&'a self, name: &str) -> (r: Option<&'a String>)
        ensures
            r matches Some(v) ==> self@.contains_key(name@) && v@ == self@[name@],
            r is None ==> !self@.contains_key(name@),
    {
        let key: String = name.to_owned();
        let n = self.entries.len();
        let mut i = n;
        while i > 0
            invariant
                i <= n,
                n == self.entries.len(),
                key@ == name@,
                forall|j: int| i <= j < n ==> self.entries@[j].0@ != name@,
            decreases i,
        {
            i = i - 1;
            if self.entries[i].0 == key {
                proof {
                    lemma_entries_map_found(self.entries@, name@, i as int);
                }
                return Some(&self.entries[i].1);
            }
        }
        proof {
            lemma_entries_map_absent(self.entries@, name@);
        }
        None
    }
}

} // verus!
