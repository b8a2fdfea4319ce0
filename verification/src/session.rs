//! The key/value store that a user session carries, and the slice of the
//! request context that the access-control rules read.

use vstd::prelude::*;

verus! {

/// The map that a list of distinct-keyed entries stands for.
pub open spec fn entries_map(entries: Seq<(String, String)>) -> Map<Seq<char>, Seq<char>>
    decreases entries.len(),
{
    if entries.len() == 0 {
        Map::empty()
    } else {
        entries_map(entries.drop_last()).insert(entries.last().0@, entries.last().1@)
    }
}

/// No key occurs twice.
pub open spec fn keys_distinct(entries: Seq<(String, String)>) -> bool {
    forall|i: int, j: int|
        0 <= i < entries.len() && 0 <= j < entries.len() && i != j
            ==> #[trigger] entries[i].0@ != #[trigger] entries[j].0@
}

proof fn lemma_entries_map_lookup(entries: Seq<(String, String)>, i: int)
    requires
        keys_distinct(entries),
        0 <= i < entries.len(),
    ensures
        entries_map(entries).contains_key(entries[i].0@),
        entries_map(entries)[entries[i].0@] == entries[i].1@,
    decreases entries.len(),
{
    if i < entries.len() - 1 {
        let init = entries.drop_last();
        assert(init[i] == entries[i]);
        assert(keys_distinct(init)) by {
            assert forall|a: int, b: int|
                0 <= a < init.len() && 0 <= b < init.len() && a != b
                    implies #[trigger] init[a].0@ != #[trigger] init[b].0@ by {
                assert(init[a] == entries[a]);
                assert(init[b] == entries[b]);
            }
        }
        lemma_entries_map_lookup(init, i);
        assert(entries[i].0@ != entries[entries.len() - 1].0@);
    }
}

proof fn lemma_entries_map_domain(entries: Seq<(String, String)>, k: Seq<char>)
    ensures
        entries_map(entries).contains_key(k) <==> exists|i: int| 0 <= i < entries.len() && #[trigger] entries[i].0@ == k,
    decreases entries.len(),
{
    if entries.len() > 0 {
        let init = entries.drop_last();
        lemma_entries_map_domain(init, k);
        if entries_map(init).contains_key(k) {
            let i = choose|i: int| 0 <= i < init.len() && #[trigger] init[i].0@ == k;
            assert(entries[i] == init[i]);
        }
        if exists|i: int| 0 <= i < entries.len() && #[trigger] entries[i].0@ == k {
            let i = choose|i: int| 0 <= i < entries.len() && #[trigger] entries[i].0@ == k;
            if i < entries.len() - 1 {
                assert(init[i] == entries[i]);
            }
        }
    }
}

proof fn lemma_entries_map_update(entries: Seq<(String, String)>, i: int, e: (String, String))
    requires
        keys_distinct(entries),
        0 <= i < entries.len(),
        e.0@ == entries[i].0@,
    ensures
        entries_map(entries.update(i, e)) =~= entries_map(entries).insert(e.0@, e.1@),
        keys_distinct(entries.update(i, e)),
    decreases entries.len(),
{
    let upd = entries.update(i, e);
    assert(keys_distinct(upd)) by {
        assert forall|a: int, b: int|
            0 <= a < upd.len() && 0 <= b < upd.len() && a != b
                implies #[trigger] upd[a].0@ != #[trigger] upd[b].0@ by {
            assert(upd[a].0@ == entries[a].0@);
            assert(upd[b].0@ == entries[b].0@);
        }
    }
    let m1 = entries_map(upd);
    let m2 = entries_map(entries).insert(e.0@, e.1@);
    assert forall|k: Seq<char>| m1.contains_key(k) <==> m2.contains_key(k) by {
        lemma_entries_map_domain(upd, k);
        lemma_entries_map_domain(entries, k);
        if exists|j: int| 0 <= j < entries.len() && #[trigger] entries[j].0@ == k {
            let j = choose|j: int| 0 <= j < entries.len() && #[trigger] entries[j].0@ == k;
            assert(upd[j].0@ == k);
        }
        if exists|j: int| 0 <= j < upd.len() && #[trigger] upd[j].0@ == k {
            let j = choose|j: int| 0 <= j < upd.len() && #[trigger] upd[j].0@ == k;
            assert(entries[j].0@ == k);
        }
    }
    assert forall|k: Seq<char>| #[trigger] m1.contains_key(k) implies m1[k] == m2[k] by {
        lemma_entries_map_domain(upd, k);
        let j = choose|j: int| 0 <= j < upd.len() && #[trigger] upd[j].0@ == k;
        lemma_entries_map_lookup(upd, j);
        if j != i {
            assert(upd[j] == entries[j]);
            lemma_entries_map_lookup(entries, j);
        }
    }
}

/// The map after binding each key of `writes` to its value, in order.
pub open spec fn apply_writes(m: Map<Seq<char>, Seq<char>>, writes: Seq<(Seq<char>, Seq<char>)>) -> Map<Seq<char>, Seq<char>>
    decreases writes.len(),
{
    if writes.len() == 0 {
        m
    } else {
        apply_writes(m, writes.drop_last()).insert(writes.last().0, writes.last().1)
    }
}

/// The key/value pairs of a list of string pairs, as plain values.
pub open spec fn pairs_view(pairs: Seq<(String, String)>) -> Seq<(Seq<char>, Seq<char>)> {
    pairs.map_values(|p: (String, String)| (p.0@, p.1@))
}

/// The data map of a session: string keys, each bound to one string value.
pub struct SessionData {
    entries: Vec<(String, String)>,
}

impl View for SessionData {
    type V = Map<Seq<char>, Seq<char>>;

    closed spec fn view(&self) -> Map<Seq<char>, Seq<char>> {
        entries_map(self.entries@)
    }
}

impl SessionData {
    #[verifier::type_invariant]
    closed spec fn well_formed(self) -> bool {
        keys_distinct(self.entries@)
    }

    /// An empty session map.
    pub fn new() -> (s: SessionData)
        ensures
            s@ == Map::<Seq<char>, Seq<char>>::empty(),
    {
        SessionData { entries: Vec::new() }
    }

    fn position(&self, key: &String) -> (r: Option<usize>)
        ensures
            match r {
                Some(i) => i < self.entries@.len() && self.entries@[i as int].0@ == key@,
                None => !self@.contains_key(key@),
            },
    {
        let n = self.entries.len();
        let mut i: usize = 0;
        while i < n
            invariant
                n == self.entries@.len(),
                i <= n,
                forall|j: int| 0 <= j < i ==> #[trigger] self.entries@[j].0@ != key@,
            decreases n - i,
        {
            if self.entries[i].0 == *key {
                return Some(i);
            }
            i = i + 1;
        }
        proof {
            lemma_entries_map_domain(self.entries@, key@);
        }
        None
    }

    /// The value bound to `key`, if any.
    pub fn get(&self, key: &str) -> (v: Option<String>)
        ensures
            match v {
                Some(s) => self@.contains_key(key@) && s@ == self@[key@],
                None => !self@.contains_key(key@),
            },
    {
        proof {
            use_type_invariant(self);
        }
        let k = key.to_owned();
        match self.position(&k) {
            Some(i) => {
                proof {
                    lemma_entries_map_lookup(self.entries@, i as int);
                }
                Some(self.entries[i].1.clone())
            },
            None => None,
        }
    }

    /// Binds `key` to `value`, replacing an earlier binding of the key.
    pub fn insert(&mut self, key: String, value: String)
        ensures
            final(self)@ == old(self)@.insert(key@, value@),
    {
        proof {
            use_type_invariant(&*self);
        }
        let found = self.position(&key);
        let mut entries: Vec<(String, String)> = Vec::new();
        std::mem::swap(&mut entries, &mut self.entries);
        match found {
            Some(i) => {
                proof {
                    lemma_entries_map_update(entries@, i as int, (key, value));
                }
                entries.set(i, (key, value));
                self.entries = entries;
            },
            None => {
                let ghost before = entries@;
                proof {
                    lemma_entries_map_domain(before, key@);
                    assert forall|a: int, b: int|
                        0 <= a < before.len() + 1 && 0 <= b < before.len() + 1 && a != b
                            implies #[trigger] before.push((key, value))[a].0@
                                != #[trigger] before.push((key, value))[b].0@ by {
                        if a < before.len() && b < before.len() {
                        } else if a < before.len() {
                            assert(before[a].0@ != key@);
                        } else {
                            assert(before[b].0@ != key@);
                        }
                    }
                    assert(before.push((key, value)).drop_last() =~= before);
                }
                entries.push((key, value));
                self.entries = entries;
            },
        }
    }

    /// Binds each key of `writes` to its value, in order.
    pub fn insert_all(&mut self, writes: &Vec<(String, String)>)
        ensures
            final(self)@ == apply_writes(old(self)@, pairs_view(writes@)),
    {
        let n = writes.len();
        let mut i: usize = 0;
        while i < n
            invariant
                n == writes@.len(),
                i <= n,
                self@ == apply_writes(old(self)@, pairs_view(writes@.subrange(0, i as int))),
            decreases n - i,
        {
            proof {
                let pre = pairs_view(writes@.subrange(0, i as int + 1));
                assert(pre.drop_last() =~= pairs_view(writes@.subrange(0, i as int)));
                assert(pre.last() == (writes@[i as int].0@, writes@[i as int].1@));
            }
            self.insert(writes[i].0.clone(), writes[i].1.clone());
            i = i + 1;
        }
        assert(writes@.subrange(0, n as int) =~= writes@);
    }
}

} // verus!
