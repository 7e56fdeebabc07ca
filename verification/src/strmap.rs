use vstd::prelude::*;

verus! {

/// The map that a list of entries stands for: a later entry for a key
/// overrides an earlier one.
pub open spec fn entries_map<V>(s: Seq<(String, V)>) -> Map<Seq<char>, V>
    decreases s.len(),
{
    if s.len() == 0 {
        Map::empty()
    } else {
        entries_map(s.drop_last()).insert(s.last().0@, s.last().1)
    }
}

/// No key occurs twice among the entries.
pub open spec fn keys_unique<V>(s: Seq<(String, V)>) -> bool {
    forall|i: int, j: int| 0 <= i < j < s.len() ==> s[i].0@ != s[j].0@
}

proof fn lemma_entries_map_contains<V>(s: Seq<(String, V)>, k: Seq<char>)
    ensures
        entries_map(s).contains_key(k) <==> exists|i: int| 0 <= i < s.len() && s[i].0@ == k,
        entries_map(s).dom().finite(),
    decreases s.len(),
{
    if s.len() > 0 {
        lemma_entries_map_contains(s.drop_last(), k);
        if entries_map(s).contains_key(k) && s.last().0@ != k {
            let i = choose|i: int| 0 <= i < s.len() - 1 && s.drop_last()[i].0@ == k;
            assert(s[i].0@ == k);
        }
        if exists|i: int| 0 <= i < s.len() && s[i].0@ == k {
            let i = choose|i: int| 0 <= i < s.len() && s[i].0@ == k;
            if i < s.len() - 1 {
                assert(s.drop_last()[i].0@ == k);
            }
        }
    }
}

proof fn lemma_entries_map_index<V>(s: Seq<(String, V)>, j: int)
    requires
        keys_unique(s),
        0 <= j < s.len(),
    ensures
        entries_map(s).contains_key(s[j].0@),
        entries_map(s)[s[j].0@] == s[j].1,
    decreases s.len(),
{
    if j < s.len() - 1 {
        assert(s.drop_last()[j] == s[j]);
        lemma_entries_map_index(s.drop_last(), j);
        assert(s.last().0@ != s[j].0@);
    }
}

proof fn lemma_entries_map_update<V>(s: Seq<(String, V)>, j: int, e: (String, V))
    requires
        keys_unique(s),
        0 <= j < s.len(),
        e.0@ == s[j].0@,
    ensures
        keys_unique(s.update(j, e)),
        entries_map(s.update(j, e)) == entries_map(s).insert(e.0@, e.1),
    decreases s.len(),
{
    let t = s.update(j, e);
    if j == s.len() - 1 {
        assert(t.drop_last() =~= s.drop_last());
        lemma_entries_map_contains(s.drop_last(), e.0@);
        assert(entries_map(s) == entries_map(s.drop_last()).insert(e.0@, s[j].1));
        assert(entries_map(t) =~= entries_map(s).insert(e.0@, e.1));
    } else {
        assert(t.drop_last() =~= s.drop_last().update(j, e));
        lemma_entries_map_update(s.drop_last(), j, e);
        assert(s.last().0@ != e.0@);
        assert(entries_map(t) =~= entries_map(s).insert(e.0@, e.1));
    }
}

proof fn lemma_entries_map_push<V>(s: Seq<(String, V)>, e: (String, V))
    requires
        keys_unique(s),
        !entries_map(s).contains_key(e.0@),
    ensures
        keys_unique(s.push(e)),
        entries_map(s.push(e)) == entries_map(s).insert(e.0@, e.1),
        entries_map(s.push(e)).len() == entries_map(s).len() + 1,
{
    lemma_entries_map_contains(s, e.0@);
    assert(s.push(e).drop_last() =~= s);
    assert forall|i: int, j: int| 0 <= i < j < s.push(e).len() implies s.push(e)[i].0@ != s.push(e)[j].0@ by {
        if j == s.len() {
            assert(s[i].0@ != e.0@);
        }
    }
}

proof fn lemma_entries_map_len<V>(s: Seq<(String, V)>)
    requires
        keys_unique(s),
    ensures
        entries_map(s).len() == s.len(),
    decreases s.len(),
{
    if s.len() > 0 {
        let p = s.drop_last();
        assert(keys_unique(p));
        lemma_entries_map_len(p);
        lemma_entries_map_contains(p, s.last().0@);
        assert(p.push(s.last()) =~= s);
        lemma_entries_map_push(p, s.last());
    }
}

/// A map from string keys to values. Entries are kept in the order in which
/// their keys were first inserted, and no key occurs twice.
#[derive(Debug)]
pub struct StrMap<V> {
    entries: Vec<(String, V)>,
}

impl<V> View for StrMap<V> {
    type V = Map<Seq<char>, V>;

    closed spec fn view(&self) -> Map<Seq<char>, V> {
        entries_map(self.entries@)
    }
}

impl<V> StrMap<V> {
    #[verifier::type_invariant]
    closed spec fn inv(self) -> bool {
        keys_unique(self.entries@)
    }

    /// The keys in the order in which they were first inserted.
    pub closed spec fn key_order(self) -> Seq<Seq<char>> {
        self.entries@.map_values(|e: (String, V)| e.0@)
    }

    /// An empty map.
    pub fn new() -> (m: Self)
        ensures
            m@ == Map::<Seq<char>, V>::empty(),
            m.key_order() == Seq::<Seq<char>>::empty(),
    {
        let m = StrMap { entries: Vec::new() };
        assert(m.key_order() =~= Seq::<Seq<char>>::empty());
        m
    }

    /// The number of keys.
    pub fn len(&self) -> (n: usize)
        ensures
            n == self@.len(),
            n == self.key_order().len(),
    {
        proof {
            use_type_invariant(self);
            lemma_entries_map_len(self.entries@);
        }
        self.entries.len()
    }

    fn find(&self, key: &String) -> (r: Option<usize>)
        ensures
            match r {
                Some(j) => j < self.entries@.len() && self.entries@[j as int].0@ == key@,
                None => !self@.contains_key(key@),
            },
    {
        let mut i: usize = 0;
        while i < self.entries.len()
            invariant
                i <= self.entries@.len(),
                forall|j: int| 0 <= j < i ==> self.entries@[j].0@ != key@,
            decreases self.entries@.len() - i,
        {
            if self.entries[i].0 == *key {
                return Some(i);
            }
            i = i + 1;
        }
        proof {
            lemma_entries_map_contains(self.entries@, key@);
        }
        None
    }

    /// Whether the key is present.
    pub fn contains_key(&self, key: &String) -> (b: bool)
        ensures
            b == self@.contains_key(key@),
    {
        proof {
            use_type_invariant(self);
        }
        match self.find(key) {
            Some(j) => {
                proof {
                    lemma_entries_map_index(self.entries@, j as int);
                }
                true
            },
            None => false,
        }
    }

    /// The value stored under the key, if any.
    pub fn get(&self, key: &String) -> (r: Option<&V>)
        ensures
            r is Some == self@.contains_key(key@),
            r is Some ==> *r->0 == self@[key@],
    {
        proof {
            use_type_invariant(self);
        }
        match self.find(key) {
            Some(j) => {
                proof {
                    lemma_entries_map_index(self.entries@, j as int);
                }
                Some(&self.entries[j].1)
            },
            None => None,
        }
    }

    /// Stores the value under the key, replacing the value that was there.
    /// A new key goes after all keys present; a present key keeps its place.
    pub fn insert(&mut self, key: String, value: V)
        ensures
            final(self)@ == old(self)@.insert(key@, value),
            old(self)@.contains_key(key@) ==> final(self).key_order() == old(self).key_order(),
            !old(self)@.contains_key(key@) ==> final(self).key_order() == old(self).key_order().push(
                key@,
            ),
    {
        proof {
            use_type_invariant(&*self);
        }
        match self.find(&key) {
            Some(j) => {
                proof {
                    lemma_entries_map_update(self.entries@, j as int, (key, value));
                    lemma_entries_map_contains(self.entries@, key@);
                }
                let ghost old_order = self.key_order();
                let mut entries = Vec::new();
                std::mem::swap(&mut entries, &mut self.entries);
                entries.set(j, (key, value));
                self.entries = entries;
                proof {
                    assert(self.key_order() =~= old_order);
                }
            },
            None => {
                proof {
                    lemma_entries_map_push(self.entries@, (key, value));
                }
                let ghost old_order = self.key_order();
                let mut entries = Vec::new();
                std::mem::swap(&mut entries, &mut self.entries);
                entries.push((key, value));
                self.entries = entries;
                proof {
                    assert(self.key_order() =~= old_order.push(key@));
                }
            },
        }
    }
}

impl<V: Clone> StrMap<V> {
    /// A copy of the map. Each value is a clone of the stored one.
    pub fn clone_map(&self) -> (m: Self)
        ensures
            m@.dom() == self@.dom(),
            m.key_order() == self.key_order(),
            forall|k: Seq<char>| #[trigger] m@.contains_key(k) ==> cloned::<V>(self@[k], m@[k]),
    {
        proof {
            use_type_invariant(self);
        }
        let mut out: Vec<(String, V)> = Vec::new();
        let mut i: usize = 0;
        while i < self.entries.len()
            invariant
                i <= self.entries@.len(),
                out@.len() == i,
                keys_unique(self.entries@),
                forall|j: int| 0 <= j < i ==> #[trigger] out@[j].0@ == self.entries@[j].0@,
                forall|j: int| 0 <= j < i ==> cloned::<V>(self.entries@[j].1, #[trigger] out@[j].1),
            decreases self.entries@.len() - i,
        {
            let k = self.entries[i].0.clone();
            let v = self.entries[i].1.clone();
            out.push((k, v));
            i = i + 1;
        }
        let m = StrMap { entries: out };
        proof {
            assert(keys_unique(out@));
            assert forall|k: Seq<char>| m@.contains_key(k) <==> self@.contains_key(k) by {
                lemma_entries_map_contains(out@, k);
                lemma_entries_map_contains(self.entries@, k);
                if m@.contains_key(k) {
                    let j = choose|j: int| 0 <= j < out@.len() && out@[j].0@ == k;
                    assert(self.entries@[j].0@ == k);
                }
                if self@.contains_key(k) {
                    let j = choose|j: int| 0 <= j < self.entries@.len() && self.entries@[j].0@ == k;
                    assert(out@[j].0@ == k);
                }
            }
            assert(m@.dom() =~= self@.dom());
            assert forall|k: Seq<char>| #[trigger] m@.contains_key(k) implies cloned::<V>(
                self@[k],
                m@[k],
            ) by {
                lemma_entries_map_contains(out@, k);
                let j = choose|j: int| 0 <= j < out@.len() && out@[j].0@ == k;
                lemma_entries_map_index(out@, j);
                lemma_entries_map_index(self.entries@, j);
            }
            assert(m.key_order() =~= self.key_order());
        }
        m
    }
}

impl<V: Clone> Clone for StrMap<V> {
    fn clone(&self) -> (m: Self)
        ensures
            m@.dom() == self@.dom(),
            m.key_order() == self.key_order(),
            forall|k: Seq<char>| #[trigger] m@.contains_key(k) ==> cloned::<V>(self@[k], m@[k]),
    {
        self.clone_map()
    }
}

impl<V> StrMap<V> {
    /// The keys, in the order in which they were first inserted.
    pub fn keys(&self) -> (ks: Vec<String>)
        ensures
            ks@.map_values(|s: String| s@) == self.key_order(),
            forall|k: Seq<char>|
                self@.contains_key(k) <==> exists|i: int| 0 <= i < ks@.len() && #[trigger] ks@[i]@ == k,
            ks@.len() == self@.len(),
    {
        proof {
            use_type_invariant(self);
            lemma_entries_map_len(self.entries@);
        }
        let mut ks: Vec<String> = Vec::new();
        let mut i: usize = 0;
        while i < self.entries.len()
            invariant
                i <= self.entries@.len(),
                ks@.len() == i,
                forall|j: int| 0 <= j < i ==> #[trigger] ks@[j]@ == self.entries@[j].0@,
            decreases self.entries@.len() - i,
        {
            ks.push(self.entries[i].0.clone());
            i = i + 1;
        }
        proof {
            assert(ks@.map_values(|s: String| s@) =~= self.key_order());
            assert forall|k: Seq<char>|
                self@.contains_key(k) <==> exists|i: int|
                    0 <= i < ks@.len() && #[trigger] ks@[i]@ == k by {
                lemma_entries_map_contains(self.entries@, k);
                if self@.contains_key(k) {
                    let j = choose|j: int| 0 <= j < self.entries@.len() && self.entries@[j].0@ == k;
                    assert(ks@[j]@ == k);
                }
            }
        }
        ks
    }

    /// The key and value at a place in the insertion order.
    pub fn entry_at(&self, i: usize) -> (kv: (&String, &V))
        requires
            i < self@.len(),
        ensures
            kv.0@ == self.key_order()[i as int],
            self@.contains_key(kv.0@),
            self@[kv.0@] == *kv.1,
    {
        proof {
            use_type_invariant(self);
            lemma_entries_map_len(self.entries@);
            lemma_entries_map_index(self.entries@, i as int);
        }
        (&self.entries[i].0, &self.entries[i].1)
    }
}

} // verus!
