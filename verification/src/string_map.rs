//! Maps from strings to strings, such as the metadata of gRPC `ErrorInfo` details.

use vstd::prelude::*;
use crate::text::str_eq;

verus! {

/// A map from string keys to string values. A later insertion of a key hides
/// the earlier ones.
#[derive(Debug, Clone)]
pub struct StringMap {
    entries: Vec<(String, String)>,
}

/// The value that the last entry with key `k` holds, if any.
pub open spec fn lookup(entries: Seq<(String, String)>, k: Seq<char>) -> Option<Seq<char>>
    decreases entries.len(),
{
    if entries.len() == 0 {
        None
    } else if entries.last().0@ == k {
        Some(entries.last().1@)
    } else {
        lookup(entries.drop_last(), k)
    }
}

/// Entry lists with the same keys and values, pairwise, look up alike.
proof fn lemma_lookup_same(a: Seq<(String, String)>, b: Seq<(String, String)>)
    requires
        a.len() == b.len(),
        forall|j: int| 0 <= j < a.len() ==> (#[trigger] a[j]).0@ == b[j].0@ && a[j].1@ == b[j].1@,
    ensures
        forall|k: Seq<char>| #[trigger] lookup(a, k) == lookup(b, k),
    decreases a.len(),
{
    if a.len() > 0 {
        let (a1, b1) = (a.drop_last(), b.drop_last());
        assert forall|j: int| 0 <= j < a1.len() implies (#[trigger] a1[j]).0@ == b1[j].0@ && a1[j].1@ == b1[j].1@ by {
            assert(a1[j] == a[j] && b1[j] == b[j]);
        }
        lemma_lookup_same(a1, b1);
        let last = a.len() - 1;
        assert(a[last].0@ == b[last].0@ && a[last].1@ == b[last].1@);
        assert forall|k: Seq<char>| #[trigger] lookup(a, k) == lookup(b, k) by {
            assert(lookup(a1, k) == lookup(b1, k));
        }
    }
}

impl View for StringMap {
    type V = Map<Seq<char>, Seq<char>>;

    closed spec fn view(&self) -> Map<Seq<char>, Seq<char>> {
        Map::new(
            |k: Seq<char>| lookup(self.entries@, k) is Some,
            |k: Seq<char>| lookup(self.entries@, k)->0,
        )
    }
}

impl StringMap {
    /// An empty map.
    pub fn new() -> (m: StringMap)
        ensures
            m@ == Map::<Seq<char>, Seq<char>>::empty(),
    {
        let m = StringMap { entries: Vec::new() };
        assert(m@ =~= Map::<Seq<char>, Seq<char>>::empty());
        m
    }

    /// Sets the value of `key`, replacing any earlier value.
    pub fn insert(&mut self, key: String, value: String)
        ensures
            final(self)@ == old(self)@.insert(key@, value@),
    {
        let ghost before = self.entries@;
        self.entries.push((key, value));
        proof {
            assert(self.entries@.drop_last() =~= before);
            assert forall|k: Seq<char>| #[trigger] lookup(self.entries@, k) == (if k == key@ {
                Some(value@)
            } else {
                lookup(before, k)
            }) by {}
        }
        assert(self@ =~= old(self)@.insert(key@, value@));
    }

    /// A copy of the map.
    pub fn copy(&self) -> (m: StringMap)
        ensures
            m@ == self@,
    {
        let mut entries: Vec<(String, String)> = Vec::new();
        let mut i: usize = 0;
        while i < self.entries.len()
            invariant
                i <= self.entries@.len(),
                entries@.len() == i,
                forall|j: int| 0 <= j < i ==> (#[trigger] entries@[j]).0@ == self.entries@[j].0@
                    && entries@[j].1@ == self.entries@[j].1@,
            decreases self.entries@.len() - i,
        {
            let (k, v) = (self.entries[i].0.clone(), self.entries[i].1.clone());
            entries.push((k, v));
            i = i + 1;
        }
        let m = StringMap { entries };
        proof {
            lemma_lookup_same(m.entries@, self.entries@);
        }
        assert(m@ =~= self@);
        m
    }

    /// The value of `key`, if it has one.
    pub fn get(&self, key: &str) -> (r: Option<&String>)
        ensures
            match r {
                Some(v) => self@.contains_key(key@) && self@[key@] == v@,
                None => !self@.contains_key(key@),
            },
    {
        let mut i = self.entries.len();
        assert(self.entries@.take(i as int) =~= self.entries@);
        while i > 0
            invariant
                i <= self.entries@.len(),
                lookup(self.entries@, key@) == lookup(self.entries@.take(i as int), key@),
            decreases i,
        {
            let ghost prefix = self.entries@.take(i as int);
            assert(prefix.drop_last() =~= self.entries@.take(i - 1));
            if str_eq(self.entries[i - 1].0.as_str(), key) {
                return Some(&self.entries[i - 1].1);
            }
            i = i - 1;
        }
        None
    }
}

} // verus!
