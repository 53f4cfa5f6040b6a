use vstd::prelude::*;

verus! {

/// The abstract contents of a key/value collection: its entries, in order.
pub type Entries = Seq<(Seq<char>, Seq<char>)>;

/// `i` is the first position of `es` whose key is `k`.
pub open spec fn is_first_key_index(es: Entries, k: Seq<char>, i: int) -> bool {
    &&& 0 <= i < es.len()
    &&& es[i].0 == k
    &&& forall|j: int| 0 <= j < i ==> #[trigger] es[j].0 != k
}

/// Some entry of `es` has the key `k`.
pub open spec fn has_key(es: Entries, k: Seq<char>) -> bool {
    exists|i: int| is_first_key_index(es, k, i)
}

/// The position of the first entry of `es` whose key is `k`.
pub open spec fn key_index(es: Entries, k: Seq<char>) -> int {
    choose|i: int| is_first_key_index(es, k, i)
}

/// The value that `es` gives to the key `k`, if any.
pub open spec fn lookup(es: Entries, k: Seq<char>) -> Option<Seq<char>> {
    if has_key(es, k) {
        Some(es[key_index(es, k)].1)
    } else {
        None
    }
}

/// `es` after giving the key `k` the value `v`: an entry with that key keeps
/// its place and takes the new value, otherwise the pair goes at the end.
pub open spec fn insert_entry(es: Entries, k: Seq<char>, v: Seq<char>) -> Entries {
    if has_key(es, k) {
        es.update(key_index(es, k), (k, v))
    } else {
        es.push((k, v))
    }
}

/// No two entries of `es` share a key.
pub open spec fn keys_distinct(es: Entries) -> bool {
    forall|i: int, j: int| 0 <= i < es.len() && 0 <= j < es.len() && i != j ==> es[i].0 != es[j].0
}

/// A collection of string keys with string values, such as the labels or the
/// annotations of an alert. Entries keep the order in which their keys were
/// first inserted.
#[derive(Debug)]
pub struct KeyValues {
    entries: Vec<(String, String)>,
}

/// The texts of the entries of a vector.
spec fn entries_view(v: Seq<(String, String)>) -> Entries {
    v.map_values(|e: (String, String)| (e.0@, e.1@))
}

impl View for KeyValues {
    type V = Entries;

    closed spec fn view(&self) -> Entries {
        entries_view(self.entries@)
    }
}

impl KeyValues {
    /// No two entries share a key.
    #[verifier::type_invariant]
    spec fn wf(self) -> bool {
        keys_distinct(self@)
    }

    /// An empty collection.
    pub fn new() -> (res: Self)
        ensures
            res@ == Seq::<(Seq<char>, Seq<char>)>::empty(),
            keys_distinct(res@),
    {
        let res = KeyValues { entries: Vec::new() };
        assert(res@ =~= Seq::<(Seq<char>, Seq<char>)>::empty());
        res
    }

    /// The number of entries.
    pub fn len(&self) -> (n: usize)
        ensures
            n == self@.len(),
    {
        self.entries.len()
    }

    /// Whether there is no entry.
    pub fn is_empty(&self) -> (b: bool)
        ensures
            b == (self@.len() == 0),
    {
        self.entries.len() == 0
    }

    /// The key and the value of the entry at position `i`.
    pub fn entry(&self, i: usize) -> (res: (&String, &String))
        requires
            i < self@.len(),
        ensures
            (res.0@, res.1@) == self@[i as int],
    {
        let e = &self.entries[i];
        (&e.0, &e.1)
    }

    /// Finds the first position whose key is `key`, or the length if none.
    fn position(&self, key: &String) -> (i: usize)
        ensures
            i <= self@.len(),
            i < self@.len() ==> is_first_key_index(self@, key@, i as int),
            i == self@.len() ==> !has_key(self@, key@),
    {
        let mut i: usize = 0;
        while i < self.entries.len()
            invariant
                i <= self.entries@.len(),
                self@.len() == self.entries@.len(),
                forall|j: int| 0 <= j < i ==> #[trigger] self@[j].0 != key@,
            decreases self.entries@.len() - i,
        {
            if self.entries[i].0 == *key {
                assert(is_first_key_index(self@, key@, i as int));
                return i;
            }
            i = i + 1;
        }
        i
    }

    /// The value of `key`, if some entry has it.
    pub fn get(&self, key: &String) -> (res: Option<&String>)
        ensures
            match res {
                Some(v) => lookup(self@, key@) == Some(v@),
                None => lookup(self@, key@) is None,
            },
    {
        let i = self.position(key);
        if i < self.entries.len() {
            proof {
                lemma_first_index_unique(self@, key@, i as int);
            }
            Some(&self.entries[i].1)
        } else {
            None
        }
    }

    /// Gives `key` the value `value` and returns the value it had before.
    pub fn insert(&mut self, key: String, value: String) -> (res: Option<String>)
        ensures
            final(self)@ == insert_entry(old(self)@, key@, value@),
            keys_distinct(final(self)@),
            match res {
                Some(v) => lookup(old(self)@, key@) == Some(v@),
                None => lookup(old(self)@, key@) is None,
            },
    {
        proof {
            use_type_invariant(&*self);
            lemma_insert_keeps_keys_distinct(self@, key@, value@);
        }
        let i = self.position(&key);
        let ghost k = key@;
        let ghost v = value@;
        let mut entries: Vec<(String, String)> = Vec::new();
        std::mem::swap(&mut entries, &mut self.entries);
        let ghost before = entries_view(entries@);
        assert(before == old(self)@);
        let res = if i < entries.len() {
            proof {
                lemma_first_index_unique(before, k, i as int);
            }
            let previous = entries[i].1.clone();
            entries.set(i, (key, value));
            assert(entries_view(entries@) =~= before.update(i as int, (k, v)));
            Some(previous)
        } else {
            entries.push((key, value));
            assert(entries_view(entries@) =~= before.push((k, v)));
            None
        };
        self.entries = entries;
        res
    }
}

impl Clone for KeyValues {
    /// A collection with the same entries.
    fn clone(&self) -> (res: Self)
        ensures
            res@ == self@,
    {
        proof {
            use_type_invariant(self);
        }
        let n = self.entries.len();
        let mut entries: Vec<(String, String)> = Vec::new();
        let mut i: usize = 0;
        while i < n
            invariant
                n == self.entries@.len(),
                i <= n,
                entries@.len() == i,
                entries_view(entries@) =~= self@.take(i as int),
            decreases n - i,
        {
            let ghost before = entries@;
            let e = &self.entries[i];
            let k = e.0.clone();
            let v = e.1.clone();
            entries.push((k, v));
            assert(entries@ == before.push(self.entries@[i as int]));
            assert(entries_view(entries@) =~= self@.take(i + 1));
            i = i + 1;
        }
        assert(self@.take(n as int) =~= self@);
        KeyValues { entries }
    }
}

/// Of two first positions of one key, each lies before the other.
proof fn lemma_first_index_unique(es: Entries, k: Seq<char>, i: int)
    requires
        is_first_key_index(es, k, i),
    ensures
        has_key(es, k),
        key_index(es, k) == i,
{
    let c = key_index(es, k);
    assert(is_first_key_index(es, k, c));
    if c < i {
        assert(es[c].0 != k);
    } else if i < c {
        assert(es[i].0 != k);
    }
}

/// After a key is given a value, looking the key up gives that value.
pub proof fn lemma_lookup_after_insert(es: Entries, k: Seq<char>, v: Seq<char>)
    ensures
        lookup(insert_entry(es, k, v), k) == Some(v),
{
    let after = insert_entry(es, k, v);
    if has_key(es, k) {
        let i = key_index(es, k);
        assert(is_first_key_index(es, k, i));
        assert(is_first_key_index(after, k, i));
        lemma_first_index_unique(after, k, i);
    } else {
        let i = es.len() as int;
        assert forall|j: int| 0 <= j < i implies #[trigger] after[j].0 != k by {
            if es[j].0 == k {
                assert(exists|m: int| 0 <= m <= j && es[m].0 == k);
                lemma_some_first_index(es, k, j);
            }
        }
        assert(is_first_key_index(after, k, i));
        lemma_first_index_unique(after, k, i);
    }
}

/// Giving a key a value leaves what the other keys look up to.
pub proof fn lemma_lookup_other_after_insert(es: Entries, k: Seq<char>, v: Seq<char>, other: Seq<char>)
    requires
        other != k,
    ensures
        lookup(insert_entry(es, k, v), other) == lookup(es, other),
{
    let after = insert_entry(es, k, v);
    if has_key(es, other) {
        let i = key_index(es, other);
        assert(is_first_key_index(es, other, i));
        assert(is_first_key_index(after, other, i));
        lemma_first_index_unique(after, other, i);
    } else {
        if has_key(after, other) {
            let i = key_index(after, other);
            assert(is_first_key_index(after, other, i));
            assert(es[i].0 == other);
            lemma_some_first_index(es, other, i);
        }
    }
}

/// Giving a key a value adds an entry exactly where no entry had the key.
pub proof fn lemma_len_after_insert(es: Entries, k: Seq<char>, v: Seq<char>)
    ensures
        insert_entry(es, k, v).len() == es.len() + (if has_key(es, k) { 0int } else { 1int }),
{
}

/// Giving a key a value keeps the keys of a collection distinct.
pub proof fn lemma_insert_keeps_keys_distinct(es: Entries, k: Seq<char>, v: Seq<char>)
    requires
        keys_distinct(es),
    ensures
        keys_distinct(insert_entry(es, k, v)),
{
    let after = insert_entry(es, k, v);
    if !has_key(es, k) {
        assert forall|i: int, j: int|
            0 <= i < after.len() && 0 <= j < after.len() && i != j implies after[i].0 != after[j].0 by {
            if i == es.len() && es[j].0 == k {
                lemma_some_first_index(es, k, j);
            }
            if j == es.len() && es[i].0 == k {
                lemma_some_first_index(es, k, i);
            }
        }
    }
}

/// An empty collection has no key twice.
pub proof fn lemma_empty_keys_distinct()
    ensures
        keys_distinct(Seq::<(Seq<char>, Seq<char>)>::empty()),
{
}

/// Where some entry has the key, there is a first one.
proof fn lemma_some_first_index(es: Entries, k: Seq<char>, j: int)
    requires
        0 <= j < es.len(),
        es[j].0 == k,
    ensures
        has_key(es, k),
    decreases j,
{
    if forall|m: int| 0 <= m < j ==> #[trigger] es[m].0 != k {
        assert(is_first_key_index(es, k, j));
    } else {
        let m = choose|m: int| 0 <= m < j && #[trigger] es[m].0 == k;
        lemma_some_first_index(es, k, m);
    }
}

} // verus!
