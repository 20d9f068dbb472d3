//! A small map keyed by byte strings, kept as a list of entries with
//! pairwise different keys. Policy ids and asset names are short byte
//! strings and an output holds few of them, so a linear scan is enough.

use vstd::prelude::*;

verus! {

/// Whether two byte strings hold the same bytes.
pub fn bytes_equal(a: &[u8], b: &[u8]) -> (r: bool)
    ensures
        r == (a@ == b@),
{
    if a.len() != b.len() {
        return false;
    }
    let mut i: usize = 0;
    while i < a.len()
        invariant
            i <= a.len(),
            a.len() == b.len(),
            forall|j: int| 0 <= j < i ==> a@[j] == b@[j],
        decreases a.len() - i,
    {
        if a[i] != b[i] {
            return false;
        }
        i = i + 1;
    }
    proof {
        assert(a@ =~= b@);
    }
    true
}

/// The map that a list of entries stands for: entries are laid down from the
/// front, so a later entry would replace an earlier one with the same key.
pub open spec fn entries_map<V>(s: Seq<(Vec<u8>, V)>) -> Map<Seq<u8>, V>
    decreases s.len(),
{
    if s.len() == 0 {
        Map::empty()
    } else {
        entries_map(s.drop_last()).insert(s.last().0@, s.last().1)
    }
}

/// No two entries share a key.
pub open spec fn distinct_keys<V>(s: Seq<(Vec<u8>, V)>) -> bool {
    forall|i: int, j: int| 0 <= i < j < s.len() ==> s[i].0@ != s[j].0@
}

/// A key is in the map exactly if some entry carries it, and the map is finite.
pub proof fn lemma_entries_domain<V>(s: Seq<(Vec<u8>, V)>)
    ensures
        entries_map(s).dom().finite(),
        forall|k: Seq<u8>| #[trigger]
            entries_map(s).contains_key(k) <==> exists|i: int| 0 <= i < s.len() && s[i].0@ == k,
    decreases s.len(),
{
    if s.len() > 0 {
        let t = s.drop_last();
        lemma_entries_domain(t);
        assert forall|k: Seq<u8>| #[trigger]
            entries_map(s).contains_key(k) implies exists|i: int|
            0 <= i < s.len() && s[i].0@ == k by {
            if k == s.last().0@ {
                assert(s[s.len() - 1].0@ == k);
            } else {
                let i = choose|i: int| 0 <= i < t.len() && t[i].0@ == k;
                assert(s[i].0@ == k);
            }
        }
        assert forall|k: Seq<u8>|
            (exists|i: int| 0 <= i < s.len() && s[i].0@ == k) implies #[trigger] entries_map(
            s,
        ).contains_key(k) by {
            let i = choose|i: int| 0 <= i < s.len() && s[i].0@ == k;
            if i < s.len() - 1 {
                assert(t[i].0@ == k);
            }
        }
    }
}

/// With pairwise different keys, every entry is found under its key.
pub proof fn lemma_entries_lookup<V>(s: Seq<(Vec<u8>, V)>, i: int)
    requires
        distinct_keys(s),
        0 <= i < s.len(),
    ensures
        entries_map(s).contains_key(s[i].0@),
        entries_map(s)[s[i].0@] == s[i].1,
    decreases s.len(),
{
    if i < s.len() - 1 {
        let t = s.drop_last();
        assert(distinct_keys(t));
        lemma_entries_lookup(t, i);
        assert(t[i] == s[i]);
        assert(s[i].0@ != s[s.len() - 1].0@);
    }
}

/// With pairwise different keys, the map has as many keys as there are entries.
pub proof fn lemma_entries_count<V>(s: Seq<(Vec<u8>, V)>)
    requires
        distinct_keys(s),
    ensures
        entries_map(s).dom().finite(),
        entries_map(s).dom().len() == s.len(),
    decreases s.len(),
{
    lemma_entries_domain(s);
    if s.len() > 0 {
        let t = s.drop_last();
        assert(distinct_keys(t));
        lemma_entries_count(t);
        lemma_entries_domain(t);
        if entries_map(t).contains_key(s.last().0@) {
            let i = choose|i: int| 0 <= i < t.len() && t[i].0@ == s.last().0@;
            assert(s[i].0@ == s[s.len() - 1].0@);
        }
    }
}

/// Replacing the value of one entry, under a key with the same bytes,
/// is an insertion into the map.
pub proof fn lemma_entries_replace<V>(s: Seq<(Vec<u8>, V)>, i: int, key: Vec<u8>, value: V)
    requires
        distinct_keys(s),
        0 <= i < s.len(),
        key@ == s[i].0@,
    ensures
        distinct_keys(s.update(i, (key, value))),
        entries_map(s.update(i, (key, value))) == entries_map(s).insert(key@, value),
    decreases s.len(),
{
    let u = s.update(i, (key, value));
    assert(distinct_keys(u)) by {
        assert forall|a: int, b: int| 0 <= a < b < u.len() implies u[a].0@ != u[b].0@ by {
            assert(s[a].0@ != s[b].0@);
        }
    }
    if i == s.len() - 1 {
        assert(u.drop_last() =~= s.drop_last());
        assert(entries_map(u) =~= entries_map(s).insert(key@, value));
    } else {
        let t = s.drop_last();
        assert(distinct_keys(t));
        lemma_entries_replace(t, i, key, value);
        assert(u.drop_last() =~= t.update(i, (key, value)));
        assert(u.last() == s.last());
        assert(s[i].0@ != s[s.len() - 1].0@);
        assert(entries_map(u) =~= entries_map(s).insert(key@, value));
    }
}

/// A finite map from byte strings to `V`.
#[derive(Clone, Debug)]
pub struct ByteMap<V> {
    entries: Vec<(Vec<u8>, V)>,
}

impl<V> View for ByteMap<V> {
    type V = Map<Seq<u8>, V>;

    closed spec fn view(&self) -> Map<Seq<u8>, V> {
        entries_map(self.entries@)
    }
}

impl<V> ByteMap<V> {
    /// The invariant of the representation: no key is stored twice.
    pub closed spec fn wf(&self) -> bool {
        distinct_keys(self.entries@)
    }

    /// The key stored at position `i`, in order of first insertion.
    pub closed spec fn key_at(&self, i: int) -> Seq<u8> {
        self.entries@[i].0@
    }

    /// A well-formed map is finite, and lists each of its keys once.
    pub proof fn lemma_wf(&self)
        requires
            self.wf(),
        ensures
            self@.dom().finite(),
            forall|i: int|
                0 <= i < self@.dom().len() ==> self@.contains_key(#[trigger] self.key_at(i)),
            forall|i: int, j: int|
                0 <= i < j < self@.dom().len() ==> self.key_at(i) != self.key_at(j),
            forall|k: Seq<u8>| #[trigger]
                self@.contains_key(k) ==> exists|i: int|
                    0 <= i < self@.dom().len() && self.key_at(i) == k,
    {
        lemma_entries_count(self.entries@);
        lemma_entries_domain(self.entries@);
        assert forall|i: int| 0 <= i < self@.dom().len() implies self@.contains_key(
            #[trigger] self.key_at(i),
        ) by {
            lemma_entries_lookup(self.entries@, i);
        }
        assert forall|k: Seq<u8>| #[trigger] self@.contains_key(k) implies exists|i: int|
            0 <= i < self@.dom().len() && self.key_at(i) == k by {
            let i = choose|i: int| 0 <= i < self.entries@.len() && self.entries@[i].0@ == k;
            assert(self.key_at(i) == k);
        }
    }

    /// The empty map.
    pub fn new() -> (r: Self)
        ensures
            r.wf(),
            r@ == Map::<Seq<u8>, V>::empty(),
    {
        ByteMap { entries: Vec::new() }
    }

    /// The number of keys.
    pub fn len(&self) -> (r: usize)
        requires
            self.wf(),
        ensures
            self@.dom().finite(),
            r == self@.dom().len(),
    {
        proof {
            lemma_entries_count(self.entries@);
        }
        self.entries.len()
    }

    /// Whether the map has no key.
    pub fn is_empty(&self) -> (r: bool)
        requires
            self.wf(),
        ensures
            r == (self@ == Map::<Seq<u8>, V>::empty()),
    {
        proof {
            lemma_entries_count(self.entries@);
            if self.entries@.len() == 0 {
                assert(self@ =~= Map::<Seq<u8>, V>::empty());
            }
        }
        self.entries.len() == 0
    }

    /// Where `key` is stored, if it is.
    fn position(&self, key: &[u8]) -> (r: Option<usize>)
        ensures
            match r {
                Some(i) => i < self.entries@.len() && self.entries@[i as int].0@ == key@,
                None => forall|j: int| 0 <= j < self.entries@.len() ==> self.entries@[j].0@ != key@,
            },
    {
        let mut i: usize = 0;
        while i < self.entries.len()
            invariant
                i <= self.entries@.len(),
                forall|j: int| 0 <= j < i ==> self.entries@[j].0@ != key@,
            decreases self.entries.len() - i,
        {
            if bytes_equal(self.entries[i].0.as_slice(), key) {
                return Some(i);
            }
            i = i + 1;
        }
        None
    }

    /// The value under `key`, if the map has that key.
    pub fn get(&self, key: &[u8]) -> (r: Option<&V>)
        requires
            self.wf(),
        ensures
            match r {
                Some(v) => self@.contains_key(key@) && *v == self@[key@],
                None => !self@.contains_key(key@),
            },
    {
        match self.position(key) {
            Some(i) => {
                proof {
                    lemma_entries_lookup(self.entries@, i as int);
                }
                Some(&self.entries[i].1)
            },
            None => {
                proof {
                    lemma_entries_domain(self.entries@);
                }
                None
            },
        }
    }

    /// Whether the map has `key`.
    pub fn contains_key(&self, key: &[u8]) -> (r: bool)
        requires
            self.wf(),
        ensures
            r == self@.contains_key(key@),
    {
        self.get(key).is_some()
    }

    /// Puts `value` under `key`, in place of what was there before.
    pub fn insert(&mut self, key: Vec<u8>, value: V)
        requires
            old(self).wf(),
        ensures
            final(self).wf(),
            final(self)@ == old(self)@.insert(key@, value),
            forall|i: int|
                0 <= i < old(self)@.dom().len() ==> final(self).key_at(i) == old(self).key_at(i),
            !old(self)@.contains_key(key@) ==> final(self).key_at(old(self)@.dom().len() as int)
                == key@,
    {
        proof {
            lemma_entries_count(self.entries@);
            lemma_entries_domain(self.entries@);
        }
        match self.position(key.as_slice()) {
            Some(i) => {
                proof {
                    lemma_entries_replace(self.entries@, i as int, key, value);
                }
                self.entries.set(i, (key, value));
            },
            None => {
                let ghost before = self.entries@;
                self.entries.push((key, value));
                proof {
                    assert(self.entries@.drop_last() =~= before);
                }
            },
        }
    }

    /// The key and the value stored at position `i`; positions follow the
    /// order in which keys were first inserted.
    pub fn entry(&self, i: usize) -> (r: (&Vec<u8>, &V))
        requires
            self.wf(),
            i < self@.dom().len(),
        ensures
            r.0@ == self.key_at(i as int),
            self@.contains_key(r.0@),
            *r.1 == self@[r.0@],
    {
        proof {
            lemma_entries_count(self.entries@);
            lemma_entries_lookup(self.entries@, i as int);
        }
        (&self.entries[i].0, &self.entries[i].1)
    }
}

} // verus!
