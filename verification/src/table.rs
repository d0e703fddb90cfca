use vstd::prelude::*;

verus! {

/// Keys that executable code can compare by their views.
pub trait TableKey: View + Sized {
    fn same_key(&self, other: &Self) -> (r: bool)
        ensures
            r == (self@ == other@),
    ;
}

impl TableKey for String {
    fn same_key(&self, other: &Self) -> (r: bool) {
        *self == *other
    }
}

impl TableKey for (String, String) {
    fn same_key(&self, other: &Self) -> (r: bool) {
        self.0 == other.0 && self.1 == other.1
    }
}

/// The map that a list of entries stands for: where a key occurs more than
/// once, its first entry wins.
pub open spec fn entries_map<K: View, V>(s: Seq<(K, V)>) -> Map<K::V, V>
    decreases s.len(),
{
    if s.len() == 0 {
        Map::empty()
    } else {
        entries_map(s.drop_first()).insert(s[0].0@, s[0].1)
    }
}

/// No key occurs twice.
pub open spec fn keys_distinct<K: View, V>(s: Seq<(K, V)>) -> bool {
    forall|i: int, j: int| 0 <= i < j < s.len() ==> s[i].0@ != s[j].0@
}

/// An entry whose key no earlier entry has is the map's value for that key.
pub proof fn lemma_first_entry_wins<K: View, V>(s: Seq<(K, V)>, i: int)
    requires
        0 <= i < s.len(),
        forall|j: int| 0 <= j < i ==> s[j].0@ != s[i].0@,
    ensures
        entries_map(s).contains_key(s[i].0@),
        entries_map(s)[s[i].0@] == s[i].1,
    decreases s.len(),
{
    if i > 0 {
        let t = s.drop_first();
        assert forall|j: int| 0 <= j < i - 1 implies #[trigger] t[j].0@ != t[i - 1].0@ by {
            assert(t[j] == s[j + 1]);
        }
        lemma_first_entry_wins(t, i - 1);
        assert(t[i - 1] == s[i]);
    }
}

/// A key that no entry has is not in the map.
pub proof fn lemma_absent_key<K: View, V>(s: Seq<(K, V)>, k: K::V)
    requires
        forall|j: int| 0 <= j < s.len() ==> s[j].0@ != k,
    ensures
        !entries_map(s).contains_key(k),
    decreases s.len(),
{
    if s.len() > 0 {
        let t = s.drop_first();
        assert forall|j: int| 0 <= j < t.len() implies t[j].0@ != k by {
            assert(t[j] == s[j + 1]);
        }
        lemma_absent_key(t, k);
    }
}

/// Overwriting the first entry of a key overwrites the map's value for it.
pub proof fn lemma_update_first_entry<K: View, V>(s: Seq<(K, V)>, i: int, e: (K, V))
    requires
        0 <= i < s.len(),
        e.0@ == s[i].0@,
        forall|j: int| 0 <= j < i ==> s[j].0@ != s[i].0@,
    ensures
        entries_map(s.update(i, e)) == entries_map(s).insert(e.0@, e.1),
    decreases s.len(),
{
    let u = s.update(i, e);
    let t = s.drop_first();
    if i == 0 {
        assert(u.drop_first() =~= t);
        assert(entries_map(u) =~= entries_map(s).insert(e.0@, e.1));
    } else {
        assert(u.drop_first() =~= t.update(i - 1, e));
        assert forall|j: int| 0 <= j < i - 1 implies #[trigger] t[j].0@ != t[i - 1].0@ by {
            assert(t[j] == s[j + 1]);
        }
        lemma_update_first_entry(t, i - 1, e);
        assert(s[0].0@ != e.0@);
        assert(entries_map(u) =~= entries_map(s).insert(e.0@, e.1));
    }
}

/// Appending an entry whose key is new adds it to the map.
pub proof fn lemma_push_new_key<K: View, V>(s: Seq<(K, V)>, e: (K, V))
    requires
        forall|j: int| 0 <= j < s.len() ==> s[j].0@ != e.0@,
    ensures
        entries_map(s.push(e)) == entries_map(s).insert(e.0@, e.1),
    decreases s.len(),
{
    let p = s.push(e);
    if s.len() == 0 {
        assert(p.drop_first() =~= Seq::<(K, V)>::empty());
        assert(p[0] == e);
        assert(entries_map(p.drop_first()) == Map::<K::V, V>::empty());
        assert(entries_map(s) == Map::<K::V, V>::empty());
        assert(entries_map(p) =~= entries_map(s).insert(e.0@, e.1));
    } else {
        let t = s.drop_first();
        assert(p.drop_first() =~= t.push(e));
        assert forall|j: int| 0 <= j < t.len() implies t[j].0@ != e.0@ by {
            assert(t[j] == s[j + 1]);
        }
        lemma_push_new_key(t, e);
        assert(s[0].0@ != e.0@);
        assert(entries_map(p) =~= entries_map(s).insert(e.0@, e.1));
    }
}

/// With no key twice, the map has one key per entry.
pub proof fn lemma_distinct_entries_len<K: View, V>(s: Seq<(K, V)>)
    requires
        keys_distinct(s),
    ensures
        entries_map(s).dom().finite(),
        entries_map(s).dom().len() == s.len(),
    decreases s.len(),
{
    if s.len() > 0 {
        let t = s.drop_first();
        assert forall|i: int, j: int| 0 <= i < j < t.len() implies t[i].0@ != t[j].0@ by {
            assert(t[i] == s[i + 1] && t[j] == s[j + 1]);
        }
        lemma_distinct_entries_len(t);
        assert forall|j: int| 0 <= j < t.len() implies t[j].0@ != s[0].0@ by {
            assert(t[j] == s[j + 1]);
        }
        lemma_absent_key(t, s[0].0@);
        assert(entries_map(s).dom() =~= entries_map(t).dom().insert(s[0].0@));
    }
}

/// A finite map from keys to values, kept as a list of entries in insertion order.
pub struct Table<K: TableKey, V> {
    entries: Vec<(K, V)>,
}

impl<K: TableKey, V> View for Table<K, V> {
    type V = Map<K::V, V>;

    closed spec fn view(&self) -> Map<K::V, V> {
        entries_map(self.entries@)
    }
}

impl<K: TableKey, V> Table<K, V> {
    /// No key is stored twice.
    #[verifier::type_invariant]
    closed spec fn wf(&self) -> bool {
        keys_distinct(self.entries@)
    }

    /// How many entries are stored.
    pub closed spec fn spec_len(&self) -> nat {
        self.entries@.len()
    }

    /// The key of the `i`-th entry in insertion order.
    pub closed spec fn spec_key_at(&self, i: int) -> K {
        self.entries@[i].0
    }

    /// The value of the `i`-th entry in insertion order.
    pub closed spec fn spec_value_at(&self, i: int) -> V {
        self.entries@[i].1
    }

    /// An empty table.
    pub fn new() -> (t: Self)
        ensures
            t@ == Map::<K::V, V>::empty(),
            t.spec_len() == 0,
    {
        Table { entries: Vec::new() }
    }

    /// Position of the first entry whose key is `k`, if any.
    fn find(&self, k: &K) -> (r: Option<usize>)
        ensures
            match r {
                Some(i) => {
                    &&& i < self.entries@.len()
                    &&& self.entries@[i as int].0@ == k@
                    &&& forall|j: int| 0 <= j < i ==> self.entries@[j].0@ != k@
                },
                None => forall|j: int| 0 <= j < self.entries@.len() ==> self.entries@[j].0@ != k@,
            },
    {
        let n = self.entries.len();
        let mut i: usize = 0;
        while i < n
            invariant
                n == self.entries@.len(),
                i <= n,
                forall|j: int| 0 <= j < i ==> self.entries@[j].0@ != k@,
            decreases n - i,
        {
            if self.entries[i].0.same_key(k) {
                return Some(i);
            }
            i = i + 1;
        }
        None
    }

    /// The value stored for `k`, if any.
    pub fn get(&self, k: &K) -> (r: Option<&V>)
        ensures
            r.is_some() == self@.contains_key(k@),
            r matches Some(v) ==> *v == self@[k@],
    {
        match self.find(k) {
            Some(i) => {
                proof {
                    lemma_first_entry_wins(self.entries@, i as int);
                }
                Some(&self.entries[i].1)
            },
            None => {
                proof {
                    lemma_absent_key(self.entries@, k@);
                }
                None
            },
        }
    }

    /// Whether `k` has a value.
    pub fn contains_key(&self, k: &K) -> (b: bool)
        ensures
            b == self@.contains_key(k@),
    {
        self.get(k).is_some()
    }

    /// Stores `v` for `k`, replacing the value that `k` had.
    pub fn insert(&mut self, k: K, v: V)
        ensures
            final(self)@ == old(self)@.insert(k@, v),
    {
        proof {
            use_type_invariant(&*self);
        }
        let found = self.find(&k);
        let mut entries: Vec<(K, V)> = Vec::new();
        std::mem::swap(&mut entries, &mut self.entries);
        match found {
            Some(i) => {
                proof {
                    lemma_update_first_entry(entries@, i as int, (k, v));
                }
                entries.set(i, (k, v));
            },
            None => {
                proof {
                    lemma_push_new_key(entries@, (k, v));
                }
                entries.push((k, v));
            },
        }
        self.entries = entries;
    }

    /// How many keys have a value.
    pub fn len(&self) -> (n: usize)
        ensures
            n == self.spec_len(),
            n == self@.dom().len(),
            self@.dom().finite(),
    {
        proof {
            use_type_invariant(self);
            lemma_distinct_entries_len(self.entries@);
        }
        self.entries.len()
    }

    /// The `i`-th entry in insertion order: a key and the value that the table holds for it.
    pub fn entry_at(&self, i: usize) -> (r: (&K, &V))
        requires
            i < self.spec_len(),
        ensures
            *r.0 == self.spec_key_at(i as int),
            *r.1 == self.spec_value_at(i as int),
            self@.contains_key(r.0@),
            self@[r.0@] == *r.1,
    {
        proof {
            use_type_invariant(self);
            lemma_first_entry_wins(self.entries@, i as int);
        }
        let e = &self.entries[i];
        (&e.0, &e.1)
    }

    /// A table holds an entry exactly when it maps some key.
    pub proof fn lemma_nonempty(&self)
        ensures
            self.spec_len() > 0 <==> exists|k: K::V| self@.contains_key(k),
    {
        if self.entries@.len() > 0 {
            lemma_first_entry_wins(self.entries@, 0);
            assert(self@.contains_key(self.entries@[0].0@));
        } else {
            assert(self@ == Map::<K::V, V>::empty());
        }
    }
}

} // verus!
