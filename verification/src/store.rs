//! The backing storage of the unbounded cache strategy: a sequential
//! key-value store with unique keys, modelled as a map from key characters
//! to value characters.

use vstd::prelude::*;

verus! {

/// One cached parameter: an owned key and its value.
pub struct CacheEntry {
    pub key: String,
    pub value: String,
}

/// A key-value store with unique keys. `lookup` returns the value stored for
/// a key, `insert` upserts with last-write-wins semantics.
pub struct CacheStore {
    entries: Vec<CacheEntry>,
}

/// The map described by a sequence of entries; on duplicate keys the later
/// entry wins.
pub open spec fn entries_map(s: Seq<CacheEntry>) -> Map<Seq<char>, Seq<char>>
    decreases s.len(),
{
    if s.len() == 0 {
        Map::empty()
    } else {
        entries_map(s.drop_last()).insert(s.last().key@, s.last().value@)
    }
}

impl View for CacheStore {
    type V = Map<Seq<char>, Seq<char>>;

    closed spec fn view(&self) -> Map<Seq<char>, Seq<char>> {
        entries_map(self.entries@)
    }
}

proof fn lemma_entries_map_contains(s: Seq<CacheEntry>, k: Seq<char>)
    ensures
        entries_map(s).contains_key(k) <==> (exists|i: int| 0 <= i < s.len() && s[i].key@ == k),
    decreases s.len(),
{
    if s.len() > 0 {
        let prefix = s.drop_last();
        lemma_entries_map_contains(prefix, k);
        if s.last().key@ == k {
            assert(s[s.len() - 1].key@ == k);
        } else {
            if entries_map(s).contains_key(k) {
                let i = choose|i: int| 0 <= i < prefix.len() && prefix[i].key@ == k;
                assert(s[i].key@ == k);
            }
            if exists|i: int| 0 <= i < s.len() && s[i].key@ == k {
                let i = choose|i: int| 0 <= i < s.len() && s[i].key@ == k;
                assert(prefix[i].key@ == k);
            }
        }
    }
}

proof fn lemma_entries_map_value(s: Seq<CacheEntry>, i: int)
    requires
        0 <= i < s.len(),
        forall|a: int, b: int| 0 <= a < b < s.len() ==> s[a].key@ != s[b].key@,
    ensures
        entries_map(s).contains_key(s[i].key@),
        entries_map(s)[s[i].key@] == s[i].value@,
    decreases s.len(),
{
    if i < s.len() - 1 {
        let prefix = s.drop_last();
        lemma_entries_map_value(prefix, i);
        assert(s.last().key@ != s[i].key@);
    }
}

impl CacheStore {
    /// Keys are pairwise distinct.
    pub closed spec fn wf(&self) -> bool {
        forall|i: int, j: int|
            0 <= i < j < self.entries@.len() ==> self.entries@[i].key@ != self.entries@[j].key@
    }

    /// An empty store.
    pub fn new() -> (r: CacheStore)
        ensures
            r.wf(),
            r@ == Map::<Seq<char>, Seq<char>>::empty(),
    {
        CacheStore { entries: Vec::new() }
    }

    /// Returns the value stored for `key`, if any; no side effects.
    pub fn lookup(&self, key: &str) -> (r: Option<String>)
        requires
            self.wf(),
        ensures
            match r {
                Some(v) => self@.contains_key(key@) && v@ == self@[key@],
                None => !self@.contains_key(key@),
            },
    {
        let k: String = key.to_owned();
        let n = self.entries.len();
        let mut i: usize = 0;
        while i < n
            invariant
                n == self.entries@.len(),
                i <= n,
                k@ == key@,
                self.wf(),
                forall|j: int| 0 <= j < i ==> self.entries@[j].key@ != key@,
            decreases n - i,
        {
            if self.entries[i].key == k {
                proof {
                    lemma_entries_map_value(self.entries@, i as int);
                }
                return Some(self.entries[i].value.clone());
            }
            i += 1;
        }
        proof {
            lemma_entries_map_contains(self.entries@, key@);
        }
        None
    }

    /// Upserts `key`: a later insert for an existing key overwrites the value.
    pub fn insert(&mut self, key: &str, value: &str)
        requires
            old(self).wf(),
        ensures
            final(self).wf(),
            final(self)@ == old(self)@.insert(key@, value@),
    {
        let k: String = key.to_owned();
        let v: String = value.to_owned();
        let n = self.entries.len();
        let mut i: usize = 0;
        while i < n
            invariant
                n == self.entries@.len(),
                i <= n,
                k@ == key@,
                v@ == value@,
                self == old(self),
                self.wf(),
                forall|j: int| 0 <= j < i ==> self.entries@[j].key@ != key@,
            decreases n - i,
        {
            if self.entries[i].key == k {
                let ghost s_old = self.entries@;
                let entry = CacheEntry { key: k, value: v };
                self.entries[i] = entry;
                proof {
                    lemma_entries_map_overwrite(s_old, i as int, self.entries@[i as int]);
                }
                return;
            }
            i += 1;
        }
        let ghost s_old = self.entries@;
        let entry = CacheEntry { key: k, value: v };
        self.entries.push(entry);
        proof {
            assert(self.entries@.drop_last() =~= s_old);
        }
    }

    /// A store seeded from the pairs; on duplicate keys the later pair
    /// wins, as one insert after another would.
    pub fn from_pairs(pairs: &Vec<(String, String)>) -> (r: CacheStore)
        ensures
            r.wf(),
            r@ == pairs_map(pairs@),
    {
        let mut store = CacheStore::new();
        let n = pairs.len();
        let mut i: usize = 0;
        while i < n
            invariant
                n == pairs@.len(),
                i <= n,
                store.wf(),
                store@ == pairs_map(pairs@.subrange(0, i as int)),
            decreases n - i,
        {
            store.insert(pairs[i].0.as_str(), pairs[i].1.as_str());
            proof {
                assert(pairs@.subrange(0, i + 1).drop_last() =~= pairs@.subrange(0, i as int));
                assert(pairs@.subrange(0, i + 1).last() == pairs@[i as int]);
            }
            i += 1;
        }
        proof {
            assert(pairs@.subrange(0, n as int) =~= pairs@);
        }
        store
    }

    /// Removes every entry.
    pub fn clear(&mut self)
        ensures
            final(self).wf(),
            final(self)@ == Map::<Seq<char>, Seq<char>>::empty(),
    {
        self.entries.clear();
    }
}

proof fn lemma_entries_map_overwrite(s: Seq<CacheEntry>, i: int, e: CacheEntry)
    requires
        0 <= i < s.len(),
        s[i].key@ == e.key@,
        forall|a: int, b: int| 0 <= a < b < s.len() ==> s[a].key@ != s[b].key@,
    ensures
        entries_map(s.update(i, e)) == entries_map(s).insert(e.key@, e.value@),
    decreases s.len(),
{
    let s2 = s.update(i, e);
    if i == s.len() - 1 {
        assert(s2.drop_last() =~= s.drop_last());
        assert(s2.last() == e);
        assert(entries_map(s2) =~= entries_map(s).insert(e.key@, e.value@));
    } else {
        let prefix = s.drop_last();
        assert(s2.drop_last() =~= prefix.update(i, e));
        lemma_entries_map_overwrite(prefix, i, e);
        assert(s.last().key@ != e.key@);
        assert(entries_map(s2) =~= entries_map(s).insert(e.key@, e.value@));
    }
}

/// The last-write-wins map described by a sequence of key-value pairs.
pub open spec fn pairs_map(s: Seq<(String, String)>) -> Map<Seq<char>, Seq<char>>
    decreases s.len(),
{
    if s.len() == 0 {
        Map::empty()
    } else {
        pairs_map(s.drop_last()).insert(s.last().0@, s.last().1@)
    }
}

/// Miss-then-populate: once the read-through path has stored the value
/// fetched for a key, a lookup of that key yields exactly that value.
pub proof fn lemma_insert_then_lookup(
    m: Map<Seq<char>, Seq<char>>,
    k: Seq<char>,
    v: Seq<char>,
)
    ensures
        m.insert(k, v).contains_key(k),
        m.insert(k, v)[k] == v,
{
}

/// A later insert for an existing key silently overwrites the earlier value:
/// after storing `v2` over `v1`, a lookup yields `v2`, never `v1`.
pub proof fn lemma_overwrite_last_write_wins(
    m: Map<Seq<char>, Seq<char>>,
    k: Seq<char>,
    v1: Seq<char>,
    v2: Seq<char>,
)
    ensures
        m.insert(k, v1).insert(k, v2)[k] == v2,
        m.insert(k, v1).insert(k, v2) == m.insert(k, v2),
{
    assert(m.insert(k, v1).insert(k, v2) =~= m.insert(k, v2));
}

/// An insert leaves every other key untouched.
pub proof fn lemma_insert_preserves_other_keys(
    m: Map<Seq<char>, Seq<char>>,
    k: Seq<char>,
    v: Seq<char>,
    other: Seq<char>,
)
    requires
        other != k,
    ensures
        m.insert(k, v).contains_key(other) <==> m.contains_key(other),
        m.contains_key(other) ==> m.insert(k, v)[other] == m[other],
{
}

} // verus!
