//! A table keyed by text, as the contract's storage maps are keyed.

use vstd::prelude::*;

verus! {

/// Entries keyed by a string; each key occurs at most once.
#[derive(Debug)]
pub struct Table<V> {
    entries: Vec<(String, V)>,
}

/// The map that a sequence of entries stands for: later entries win.
pub open spec fn entries_map<V: View>(s: Seq<(String, V)>) -> Map<Seq<char>, V::V>
    decreases s.len(),
{
    if s.len() == 0 {
        Map::empty()
    } else {
        entries_map(s.drop_last()).insert(s.last().0@, s.last().1@)
    }
}

/// No key occurs twice.
pub open spec fn keys_unique<V>(s: Seq<(String, V)>) -> bool {
    forall|i: int, j: int| 0 <= i < s.len() && 0 <= j < s.len() && i != j ==> #[trigger] s[i].0@ != #[trigger] s[j].0@
}

proof fn lemma_entry_in_map<V: View>(s: Seq<(String, V)>, i: int)
    requires
        keys_unique(s),
        0 <= i < s.len(),
    ensures
        entries_map(s).contains_key(s[i].0@),
        entries_map(s)[s[i].0@] == s[i].1@,
    decreases s.len(),
{
    if i < s.len() - 1 {
        lemma_entry_in_map(s.drop_last(), i);
        assert(s.drop_last()[i] == s[i]);
        assert(s[i].0@ != s[s.len() - 1].0@);
    }
}

proof fn lemma_key_has_entry<V: View>(s: Seq<(String, V)>, k: Seq<char>)
    requires
        entries_map(s).contains_key(k),
    ensures
        exists|i: int| 0 <= i < s.len() && #[trigger] s[i].0@ == k,
    decreases s.len(),
{
    if s.len() > 0 && s.last().0@ != k {
        lemma_key_has_entry(s.drop_last(), k);
        let i = choose|i: int| 0 <= i < s.drop_last().len() && #[trigger] s.drop_last()[i].0@ == k;
        assert(s[i].0@ == k);
    } else if s.len() > 0 {
        assert(s[s.len() - 1].0@ == k);
    }
}

proof fn lemma_update_entry<V: View>(s: Seq<(String, V)>, i: int, e: (String, V))
    requires
        keys_unique(s),
        0 <= i < s.len(),
        s[i].0@ == e.0@,
    ensures
        entries_map(s.update(i, e)) == entries_map(s).insert(e.0@, e.1@),
    decreases s.len(),
{
    let t = s.update(i, e);
    if i == s.len() - 1 {
        assert(t.drop_last() =~= s.drop_last());
        assert(entries_map(t) =~= entries_map(s).insert(e.0@, e.1@));
    } else {
        assert(t.drop_last() =~= s.drop_last().update(i, e));
        lemma_update_entry(s.drop_last(), i, e);
        assert(s[i].0@ != s[s.len() - 1].0@);
        assert(entries_map(t) =~= entries_map(s).insert(e.0@, e.1@));
    }
}

impl<V: View> View for Table<V> {
    type V = Map<Seq<char>, V::V>;

    closed spec fn view(&self) -> Map<Seq<char>, V::V> {
        entries_map(self.entries@)
    }
}

impl<V: View> Table<V> {
    /// The table's own invariant.
    pub closed spec fn wf(&self) -> bool {
        keys_unique(self.entries@)
    }

    /// An empty table.
    pub fn new() -> (t: Self)
        ensures
            t.wf(),
            t@ == Map::<Seq<char>, V::V>::empty(),
    {
        Table { entries: Vec::new() }
    }

    fn position(&self, key: &String) -> (r: Option<usize>)
        requires
            self.wf(),
        ensures
            match r {
                Some(i) => i < self.entries@.len() && self.entries@[i as int].0@ == key@,
                None => forall|i: int| 0 <= i < self.entries@.len() ==> #[trigger] self.entries@[i].0@ != key@,
            },
    {
        let n = self.entries.len();
        let mut i: usize = 0;
        while i < n
            invariant
                n == self.entries@.len(),
                i <= n,
                forall|j: int| 0 <= j < i ==> #[trigger] self.entries@[j].0@ != key@,
            decreases n - i,
        {
            if self.entries[i].0 == *key {
                return Some(i);
            }
            i = i + 1;
        }
        None
    }

    /// Whether the table holds `key`.
    pub fn contains_key(&self, key: &String) -> (b: bool)
        requires
            self.wf(),
        ensures
            b == self@.contains_key(key@),
    {
        match self.position(key) {
            Some(i) => {
                proof { lemma_entry_in_map(self.entries@, i as int); }
                true
            },
            None => {
                proof {
                    if self@.contains_key(key@) {
                        lemma_key_has_entry(self.entries@, key@);
                    }
                }
                false
            },
        }
    }

    /// The value stored under `key`, if any.
    pub fn get(&self, key: &String) -> (r: Option<&V>)
        requires
            self.wf(),
        ensures
            r is Some == self@.contains_key(key@),
            r is Some ==> r->0@ == self@[key@],
    {
        match self.position(key) {
            Some(i) => {
                proof { lemma_entry_in_map(self.entries@, i as int); }
                Some(&self.entries[i].1)
            },
            None => {
                proof {
                    if self@.contains_key(key@) {
                        lemma_key_has_entry(self.entries@, key@);
                    }
                }
                None
            },
        }
    }

    /// Stores `value` under `key`, replacing what was there.
    pub fn insert(&mut self, key: String, value: V)
        requires
            old(self).wf(),
        ensures
            final(self).wf(),
            final(self)@ == old(self)@.insert(key@, value@),
    {
        match self.position(&key) {
            Some(i) => {
                proof { lemma_update_entry(self.entries@, i as int, (key, value)); }
                self.entries.set(i, (key, value));
            },
            None => {
                let ghost s = self.entries@;
                self.entries.push((key, value));
                proof {
                    assert(self.entries@.drop_last() =~= s);
                }
            },
        }
    }

    /// The entries, each key once, in storage order.
    pub fn entries(&self) -> (r: &Vec<(String, V)>)
        requires
            self.wf(),
        ensures
            forall|i: int| 0 <= i < r@.len() ==> self@.contains_key(#[trigger] r@[i].0@) && self@[r@[i].0@] == r@[i].1@,
            forall|k: Seq<char>| #[trigger] self@.contains_key(k) ==> exists|i: int| 0 <= i < r@.len() && #[trigger] r@[i].0@ == k,
    {
        proof {
            assert forall|i: int| 0 <= i < self.entries@.len() implies self@.contains_key(#[trigger] self.entries@[i].0@) && self@[self.entries@[i].0@] == self.entries@[i].1@ by {
                lemma_entry_in_map(self.entries@, i);
            }
            assert forall|k: Seq<char>| #[trigger] self@.contains_key(k) implies exists|i: int| 0 <= i < self.entries@.len() && #[trigger] self.entries@[i].0@ == k by {
                lemma_key_has_entry(self.entries@, k);
            }
        }
        &self.entries
    }
}

} // verus!
