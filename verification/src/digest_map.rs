//! The digest mapping delivered in the terminal event of a successful run:
//! one entry per enumerated file, from its path to its hexadecimal digest
//! (or to the empty sentinel string for a file that failed to hash).

use vstd::prelude::*;

verus! {

/// True when no two entries of `s` share a path.
pub open spec fn paths_distinct(s: Seq<(Seq<char>, Seq<char>)>) -> bool {
    forall|i: int, j: int| 0 <= i < j < s.len() ==> s[i].0 != s[j].0
}

/// True when some entry of `s` has path `p`.
pub open spec fn has_path(s: Seq<(Seq<char>, Seq<char>)>, p: Seq<char>) -> bool {
    exists|i: int| 0 <= i < s.len() && s[i].0 == p
}

/// A mapping from file path to digest string, holding its entries in
/// insertion order, with every path distinct.
#[derive(Clone, Debug)]
pub struct DigestMap {
    entries: Vec<(String, String)>,
}

impl View for DigestMap {
    type V = Seq<(Seq<char>, Seq<char>)>;

    closed spec fn view(&self) -> Seq<(Seq<char>, Seq<char>)> {
        self.entries@.map_values(|e: (String, String)| (e.0@, e.1@))
    }
}

impl DigestMap {
    /// Every path in the mapping is distinct.
    pub open spec fn wf(&self) -> bool {
        paths_distinct(self@)
    }

    /// An empty mapping.
    pub fn new() -> (m: DigestMap)
        ensures
            m@ == Seq::<(Seq<char>, Seq<char>)>::empty(),
            m.wf(),
    {
        DigestMap { entries: Vec::new() }
    }

    /// The number of entries.
    pub fn len(&self) -> (n: usize)
        ensures
            n == self@.len(),
    {
        self.entries.len()
    }

    /// Adds an entry for a path not yet present.
    pub fn insert(&mut self, path: String, digest: String)
        requires
            old(self).wf(),
            !has_path(old(self)@, path@),
        ensures
            final(self)@ == old(self)@.push((path@, digest@)),
            final(self).wf(),
    {
        let ghost pre = self@;
        self.entries.push((path, digest));
        proof {
            assert(self@ =~= pre.push((self.entries@.last().0@, self.entries@.last().1@)));
        }
    }

    /// The entry at position `i`, as it was inserted.
    pub fn entry_at(&self, i: usize) -> (e: (&String, &String))
        requires
            i < self@.len(),
        ensures
            e.0@ == self@[i as int].0,
            e.1@ == self@[i as int].1,
    {
        (&self.entries[i].0, &self.entries[i].1)
    }

    /// Looks a path up: the digest stored for it, or `None` when the path
    /// is absent.
    pub fn get(&self, path: &String) -> (r: Option<&String>)
        requires
            self.wf(),
        ensures
            match r {
                Some(d) => exists|i: int|
                    0 <= i < self@.len() && self@[i] == (path@, d@),
                None => !has_path(self@, path@),
            },
    {
        let n = self.entries.len();
        let mut k: usize = 0;
        while k < n
            invariant
                n == self@.len(),
                k <= n,
                forall|i: int| 0 <= i < k ==> self@[i].0 != path@,
            decreases n - k,
        {
            proof {
                assert(self@[k as int] == (self.entries@[k as int].0@, self.entries@[k as int].1@));
            }
            if self.entries[k].0.eq(path) {
                return Some(&self.entries[k].1);
            }
            k += 1;
        }
        None
    }
}

} // verus!
