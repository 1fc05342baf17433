//! Game attribute maps: string keys to string values, one value per key.
use vstd::prelude::*;
use crate::text::str_eq;

verus! {

/// The first value stored under `key` in a list of key/value pairs.
pub open spec fn lookup_pairs(entries: Seq<(String, String)>, key: Seq<char>) -> Option<Seq<char>>
    decreases entries.len(),
{
    if entries.len() == 0 {
        None
    } else if entries[0].0@ == key {
        Some(entries[0].1@)
    } else {
        lookup_pairs(entries.drop_first(), key)
    }
}

/// Map of game attributes (e.g. `ME3map` to `map2`).
pub struct AttrMap {
    pub entries: Vec<(String, String)>,
}

impl AttrMap {
    /// The value stored for `key`, if any.
    pub open spec fn lookup(&self, key: Seq<char>) -> Option<Seq<char>> {
        lookup_pairs(self.entries@, key)
    }

    /// Whether no key occurs twice among the entries (the map built by
    /// `new`, `insert`, `insert_all`, `from_pairs` and `merge` keeps it).
    pub open spec fn keys_unique(&self) -> bool {
        forall|i: int, j: int| 0 <= i < j < self.entries@.len()
            ==> #[trigger] self.entries@[i].0@ != #[trigger] self.entries@[j].0@
    }

    /// The pairs of the map as string views, in stored order.
    pub open spec fn view_pairs(&self) -> Seq<(Seq<char>, Seq<char>)> {
        self.entries@.map_values(|p: (String, String)| (p.0@, p.1@))
    }

    /// A copy of this map.
    pub fn duplicate(&self) -> (r: AttrMap)
        ensures
            r.entries@ == self.entries@,
            r.view_pairs() == self.view_pairs(),
    {
        AttrMap { entries: copy_pairs(&self.entries) }
    }

    /// Sets every pair of `other` in this map: keys of `other` take the
    /// value that `other` gives them, other keys keep theirs.
    pub fn merge(&mut self, other: &AttrMap)
        ensures
            forall|k: Seq<char>| #[trigger] final(self).lookup(k) == (match other.lookup(k) {
                Some(v) => Some(v),
                None => old(self).lookup(k),
            }),
            old(self).keys_unique() ==> final(self).keys_unique(),
    {
        let n = other.entries.len();
        let mut i: usize = n;
        while i > 0
            invariant
                n == other.entries@.len(),
                0 <= i <= n,
                old(self).keys_unique() ==> self.keys_unique(),
                forall|k: Seq<char>| #[trigger] self.lookup(k) == (match lookup_pairs(other.entries@.skip(i as int), k) {
                    Some(v) => Some(v),
                    None => old(self).lookup(k),
                }),
            decreases i,
        {
            i = i - 1;
            let k = other.entries[i].0.clone();
            let v = other.entries[i].1.clone();
            proof {
                assert(other.entries@.skip(i as int)[0] == other.entries@[i as int]);
                assert(other.entries@.skip(i as int).drop_first() =~= other.entries@.skip(i + 1));
            }
            self.insert(k, v);
        }
        proof {
            assert(other.entries@.skip(0) =~= other.entries@);
        }
    }

    /// Creates an empty map.
    pub fn new() -> (m: AttrMap)
        ensures
            m.entries@.len() == 0,
            m.keys_unique(),
            forall|k: Seq<char>| m.lookup(k) is None,
    {
        AttrMap { entries: Vec::new() }
    }

    /// Looks up the value stored under `key`.
    pub fn get(&self, key: &str) -> (r: Option<&String>)
        ensures
            r matches Some(v) ==> self.lookup(key@) == Some(v@),
            r is None ==> self.lookup(key@) is None,
    {
        let n = self.entries.len();
        let mut i: usize = 0;
        proof {
            assert(self.entries@.skip(0) =~= self.entries@);
        }
        while i < n
            invariant
                n == self.entries@.len(),
                0 <= i <= n,
                lookup_pairs(self.entries@, key@) == lookup_pairs(self.entries@.skip(i as int), key@),
            decreases n - i,
        {
            let entry = &self.entries[i];
            proof {
                assert(self.entries@.skip(i as int)[0] == self.entries@[i as int]);
                assert(self.entries@.skip(i as int).drop_first() =~= self.entries@.skip(i + 1));
            }
            if str_eq(entry.0.as_str(), key) {
                return Some(&entry.1);
            }
            i = i + 1;
        }
        proof {
            assert(self.entries@.skip(n as int).len() == 0);
        }
        None
    }

    /// Inserts `value` under `key`, replacing any earlier value of that key.
    pub fn insert(&mut self, key: String, value: String)
        ensures
            final(self).lookup(key@) == Some(value@),
            forall|k: Seq<char>| k != key@ ==> #[trigger] final(self).lookup(k) == old(self).lookup(k),
            old(self).keys_unique() ==> final(self).keys_unique(),
    {
        let n = self.entries.len();
        let mut i: usize = 0;
        while i < n
            invariant
                n == self.entries@.len(),
                0 <= i <= n,
                self.entries@ == old(self).entries@,
                forall|j: int| 0 <= j < i ==> #[trigger] self.entries@[j].0@ != key@,
            decreases n - i,
        {
            if str_eq(self.entries[i].0.as_str(), key.as_str()) {
                let ghost before = self.entries@;
                let k = self.entries[i].0.clone();
                self.entries.set(i, (k, value));
                proof {
                    assert forall|a: int| 0 <= a < n implies #[trigger] self.entries@[a].0@ == before[a].0@ by {}
                    assert forall|k: Seq<char>| #[trigger] lookup_pairs(self.entries@, k)
                        == (if k == key@ { Some(value@) } else { lookup_pairs(before, k) }) by {
                        lemma_lookup_update(before, i as int, value, key@, k);
                    }
                }
                return;
            }
            i = i + 1;
        }
        let ghost before = self.entries@;
        self.entries.push((key, value));
        proof {
            assert forall|a: int| 0 <= a < n implies #[trigger] self.entries@[a] == before[a] by {}
            assert forall|k: Seq<char>| #[trigger] lookup_pairs(self.entries@, k)
                == (if k == key@ { Some(value@) } else { lookup_pairs(before, k) }) by {
                lemma_lookup_push(before, (key, value), k);
            }
        }
    }

    /// Inserts every pair of `pairs` in order: a key takes the value of its
    /// last pair, keys without a pair keep their value.
    pub fn insert_all(&mut self, pairs: Vec<(String, String)>)
        ensures
            forall|k: Seq<char>| #[trigger] final(self).lookup(k) == (match lookup_last_text(pair_texts(pairs@), k) {
                Some(v) => Some(v),
                None => old(self).lookup(k),
            }),
            old(self).keys_unique() ==> final(self).keys_unique(),
    {
        let n = pairs.len();
        let mut i: usize = 0;
        while i < n
            invariant
                n == pairs@.len(),
                0 <= i <= n,
                old(self).keys_unique() ==> self.keys_unique(),
                forall|k: Seq<char>| #[trigger] self.lookup(k) == (match lookup_last_text(pair_texts(pairs@.take(i as int)), k) {
                    Some(v) => Some(v),
                    None => old(self).lookup(k),
                }),
            decreases n - i,
        {
            let k = pairs[i].0.clone();
            let v = pairs[i].1.clone();
            let ghost kv = pairs@[i as int];
            self.insert(k, v);
            proof {
                assert(pair_texts(pairs@.take(i + 1)).drop_last() =~= pair_texts(pairs@.take(i as int)));
                assert(pair_texts(pairs@.take(i + 1)).last() == (kv.0@, kv.1@));
            }
            i = i + 1;
        }
        proof {
            assert(pairs@.take(n as int) =~= pairs@);
        }
    }

    /// Builds a map from key/value pairs; a later pair replaces an earlier
    /// one with the same key.
    pub fn from_pairs(pairs: Vec<(String, String)>) -> (m: AttrMap)
        ensures
            forall|k: Seq<char>| #[trigger] m.lookup(k) == lookup_last(pairs@, k),
            m.keys_unique(),
    {
        let mut m = AttrMap::new();
        let n = pairs.len();
        let mut i: usize = 0;
        while i < n
            invariant
                n == pairs@.len(),
                0 <= i <= n,
                forall|k: Seq<char>| #[trigger] m.lookup(k) == lookup_last(pairs@.take(i as int), k),
                m.keys_unique(),
            decreases n - i,
        {
            let k = pairs[i].0.clone();
            let v = pairs[i].1.clone();
            let ghost kv = pairs@[i as int];
            m.insert(k, v);
            proof {
                assert(pairs@.take(i + 1).drop_last() =~= pairs@.take(i as int));
                assert(pairs@.take(i + 1).last() == kv);
            }
            i = i + 1;
        }
        proof {
            assert(pairs@.take(n as int) =~= pairs@);
        }
        m
    }
}

/// A copy of a list of string pairs.
pub fn copy_pairs(pairs: &Vec<(String, String)>) -> (r: Vec<(String, String)>)
    ensures
        r@ == pairs@,
{
    let mut out: Vec<(String, String)> = Vec::new();
    let mut i: usize = 0;
    while i < pairs.len()
        invariant
            0 <= i <= pairs@.len(),
            out@ == pairs@.take(i as int),
        decreases pairs@.len() - i,
    {
        let k = pairs[i].0.clone();
        let v = pairs[i].1.clone();
        out.push((k, v));
        i = i + 1;
        assert(out@ =~= pairs@.take(i as int));
    }
    assert(pairs@.take(pairs@.len() as int) =~= pairs@);
    out
}

/// The last value given for `key` in a list of text pairs.
pub open spec fn lookup_last_text(pairs: Seq<(Seq<char>, Seq<char>)>, key: Seq<char>) -> Option<Seq<char>>
    decreases pairs.len(),
{
    if pairs.len() == 0 {
        None
    } else if pairs.last().0 == key {
        Some(pairs.last().1)
    } else {
        lookup_last_text(pairs.drop_last(), key)
    }
}

/// The texts of a list of string pairs.
pub open spec fn pair_texts(pairs: Seq<(String, String)>) -> Seq<(Seq<char>, Seq<char>)> {
    pairs.map_values(|p: (String, String)| (p.0@, p.1@))
}

/// The last value given for `key` in a list of pairs.
pub open spec fn lookup_last(pairs: Seq<(String, String)>, key: Seq<char>) -> Option<Seq<char>>
    decreases pairs.len(),
{
    if pairs.len() == 0 {
        None
    } else if pairs.last().0@ == key {
        Some(pairs.last().1@)
    } else {
        lookup_last(pairs.drop_last(), key)
    }
}

proof fn lemma_lookup_update(s: Seq<(String, String)>, i: int, value: String, key: Seq<char>, k: Seq<char>)
    requires
        0 <= i < s.len(),
        s[i].0@ == key,
        forall|j: int| 0 <= j < i ==> #[trigger] s[j].0@ != key,
    ensures
        lookup_pairs(s.update(i, (s[i].0, value)), k)
            == (if k == key { Some(value@) } else { lookup_pairs(s, k) }),
    decreases s.len(),
{
    let t = s.update(i, (s[i].0, value));
    if i > 0 {
        assert(t.drop_first() =~= s.drop_first().update(i - 1, (s[i].0, value)));
        lemma_lookup_update(s.drop_first(), i - 1, value, key, k);
    } else {
        assert(t.drop_first() =~= s.drop_first());
    }
}

proof fn lemma_lookup_push(s: Seq<(String, String)>, kv: (String, String), k: Seq<char>)
    requires
        forall|j: int| 0 <= j < s.len() ==> #[trigger] s[j].0@ != kv.0@,
    ensures
        lookup_pairs(s.push(kv), k) == (if k == kv.0@ { Some(kv.1@) } else { lookup_pairs(s, k) }),
    decreases s.len(),
{
    if s.len() > 0 {
        assert(s.push(kv).drop_first() =~= s.drop_first().push(kv));
        lemma_lookup_push(s.drop_first(), kv, k);
    } else {
        assert(s.push(kv).drop_first() =~= s);
    }
}

} // verus!
