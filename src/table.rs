//! A finite map keyed by 32-byte digests, the storage behind every
//! per-name table of the library.
use vstd::prelude::*;
use crate::address::{digest_eq, lemma_digest_view_injective, Digest};

verus! {

/// Keys are distinct, and the map holds exactly the stored pairs.
spec fn table_ok<V>(entries: Seq<(Digest, V)>, contents: Map<Seq<u8>, V>) -> bool {
    &&& forall|i: int, j: int|
        0 <= i < j < entries.len() ==> (#[trigger] entries[i]).0@ != (#[trigger] entries[j]).0@
    &&& forall|i: int|
        0 <= i < entries.len() ==> contents.contains_key((#[trigger] entries[i]).0@)
            && contents[entries[i].0@] == entries[i].1
    &&& forall|k: Seq<u8>|
        #[trigger] contents.contains_key(k) ==> exists|i: int|
            0 <= i < entries.len() && (#[trigger] entries[i]).0@ == k
}

pub struct DigestMap<V> {
    entries: Vec<(Digest, V)>,
    contents: Ghost<Map<Seq<u8>, V>>,
}

impl<V> DigestMap<V> {
    #[verifier::type_invariant]
    spec fn inv(self) -> bool {
        table_ok(self.entries@, self.contents@)
    }

    pub closed spec fn view(&self) -> Map<Seq<u8>, V> {
        self.contents@
    }
}

impl<V: Copy> DigestMap<V> {

    pub fn new() -> (r: Self)
        ensures
            r@ == Map::<Seq<u8>, V>::empty(),
    {
        DigestMap { entries: Vec::new(), contents: Ghost(Map::empty()) }
    }

    fn find(&self, k: &Digest) -> (r: Option<usize>)
        ensures
            match r {
                Some(i) => i < self.entries@.len() && self.entries@[i as int].0 == *k,
                None => !self@.contains_key(k@),
            },
    {
        proof {
            use_type_invariant(self);
        }
        let mut i: usize = 0;
        while i < self.entries.len()
            invariant
                i <= self.entries@.len(),
                forall|j: int| 0 <= j < i ==> (#[trigger] self.entries@[j]).0@ != k@,
            decreases self.entries@.len() - i,
        {
            if digest_eq(&self.entries[i].0, k) {
                return Some(i);
            }
            proof {
                if self.entries@[i as int].0@ == k@ {
                    lemma_digest_view_injective(self.entries@[i as int].0, *k);
                }
            }
            i = i + 1;
        }
        None
    }

    /// The value stored under `k`, if any.
    pub fn get(&self, k: &Digest) -> (r: Option<V>)
        ensures
            r == (if self@.contains_key(k@) {
                Some(self@[k@])
            } else {
                None::<V>
            }),
    {
        proof {
            use_type_invariant(self);
        }
        match self.find(k) {
            Some(i) => Some(self.entries[i].1),
            None => None,
        }
    }

    pub fn contains(&self, k: &Digest) -> (r: bool)
        ensures
            r == self@.contains_key(k@),
    {
        proof {
            use_type_invariant(self);
        }
        self.find(k).is_some()
    }

    /// Stores `v` under `k`, replacing what was there.
    pub fn insert(&mut self, k: Digest, v: V)
        ensures
            final(self)@ == old(self)@.insert(k@, v),
    {
        proof {
            use_type_invariant(&*self);
        }
        let found = self.find(&k);
        let mut taken = DigestMap::new();
        std::mem::swap(&mut taken, self);
        proof {
            use_type_invariant(&taken);
        }
        let DigestMap { mut entries, contents } = taken;
        let ghost old_entries = entries@;
        let ghost new_contents = contents@.insert(k@, v);
        match found {
            Some(i) => {
                entries.set(i, (k, v));
                assert forall|c: Seq<u8>| #[trigger] new_contents.contains_key(c) implies exists|j: int|
                    0 <= j < entries@.len() && (#[trigger] entries@[j]).0@ == c by {
                    if c != k@ {
                        let j = choose|j: int| 0 <= j < old_entries.len() && (#[trigger] old_entries[j]).0@ == c;
                        assert(entries@[j].0@ == c);
                    } else {
                        assert(entries@[i as int].0@ == c);
                    }
                }
            },
            None => {
                assert forall|j: int| 0 <= j < old_entries.len() implies (#[trigger] old_entries[j]).0@ != k@ by {
                    assert(contents@.contains_key(old_entries[j].0@));
                }
                entries.push((k, v));
                assert forall|c: Seq<u8>| #[trigger] new_contents.contains_key(c) implies exists|j: int|
                    0 <= j < entries@.len() && (#[trigger] entries@[j]).0@ == c by {
                    if c != k@ {
                        let j = choose|j: int| 0 <= j < old_entries.len() && (#[trigger] old_entries[j]).0@ == c;
                        assert(entries@[j].0@ == c);
                    } else {
                        assert(entries@[old_entries.len() as int].0@ == c);
                    }
                }
            },
        }
        assert(table_ok(entries@, new_contents));
        *self = DigestMap { entries, contents: Ghost(new_contents) };
    }

    /// Removes whatever is stored under `k`.
    pub fn remove(&mut self, k: &Digest)
        ensures
            final(self)@ == old(self)@.remove(k@),
    {
        proof {
            use_type_invariant(&*self);
        }
        let found = self.find(k);
        match found {
            None => {
                assert(self@.remove(k@) =~= self@);
            },
            Some(i) => {
                let mut taken = DigestMap::new();
                std::mem::swap(&mut taken, self);
                proof {
                    use_type_invariant(&taken);
                }
                let DigestMap { mut entries, contents } = taken;
                let ghost old_entries = entries@;
                let ghost new_contents = contents@.remove(k@);
                entries.remove(i);
                assert forall|c: Seq<u8>| #[trigger] new_contents.contains_key(c) implies exists|j: int|
                    0 <= j < entries@.len() && (#[trigger] entries@[j]).0@ == c by {
                    let j = choose|j: int| 0 <= j < old_entries.len() && (#[trigger] old_entries[j]).0@ == c;
                    if j < i {
                        assert(entries@[j].0@ == c);
                    } else {
                        assert(entries@[j - 1].0@ == c);
                    }
                }
                assert(table_ok(entries@, new_contents));
                *self = DigestMap { entries, contents: Ghost(new_contents) };
            },
        }
    }
}


/// Compares two byte strings.
pub fn bytes_eq(a: &Vec<u8>, b: &Vec<u8>) -> (r: bool)
    ensures
        r == (a@ == b@),
{
    if a.len() != b.len() {
        return false;
    }
    let mut i: usize = 0;
    while i < a.len()
        invariant
            a@.len() == b@.len(),
            i <= a@.len(),
            forall|j: int| 0 <= j < i ==> a@[j] == b@[j],
        decreases a@.len() - i,
    {
        if a[i] != b[i] {
            return false;
        }
        i = i + 1;
    }
    assert(a@ =~= b@);
    true
}

/// Copies a byte string.
pub fn copy_bytes(a: &Vec<u8>) -> (r: Vec<u8>)
    ensures
        r@ == a@,
{
    let r = a.clone();
    assert(r@ =~= a@);
    r
}

struct TextEntry {
    node: Digest,
    key: Vec<u8>,
    value: Vec<u8>,
}

/// Keys are distinct, and the map holds exactly the stored triples.
spec fn text_table_ok(entries: Seq<TextEntry>, contents: Map<(Seq<u8>, Seq<u8>), Seq<u8>>) -> bool {
    &&& forall|i: int, j: int|
        0 <= i < j < entries.len() ==> ((#[trigger] entries[i]).node@, entries[i].key@) != (
        (#[trigger] entries[j]).node@, entries[j].key@)
    &&& forall|i: int|
        0 <= i < entries.len() ==> contents.contains_key(((#[trigger] entries[i]).node@, entries[i].key@))
            && contents[(entries[i].node@, entries[i].key@)] == entries[i].value@
    &&& forall|k: (Seq<u8>, Seq<u8>)|
        #[trigger] contents.contains_key(k) ==> exists|i: int|
            0 <= i < entries.len() && ((#[trigger] entries[i]).node@, entries[i].key@) == k
}

/// A finite map from a node and a byte-string key to a byte-string value.
pub struct TextMap {
    entries: Vec<TextEntry>,
    contents: Ghost<Map<(Seq<u8>, Seq<u8>), Seq<u8>>>,
}

impl TextMap {
    #[verifier::type_invariant]
    spec fn inv(self) -> bool {
        text_table_ok(self.entries@, self.contents@)
    }

    pub closed spec fn view(&self) -> Map<(Seq<u8>, Seq<u8>), Seq<u8>> {
        self.contents@
    }

    pub fn new() -> (r: Self)
        ensures
            r@ == Map::<(Seq<u8>, Seq<u8>), Seq<u8>>::empty(),
    {
        TextMap { entries: Vec::new(), contents: Ghost(Map::empty()) }
    }

    fn find(&self, node: &Digest, key: &Vec<u8>) -> (r: Option<usize>)
        ensures
            match r {
                Some(i) => i < self.entries@.len() && self.entries@[i as int].node@ == node@
                    && self.entries@[i as int].key@ == key@,
                None => !self@.contains_key((node@, key@)),
            },
    {
        proof {
            use_type_invariant(self);
        }
        let mut i: usize = 0;
        while i < self.entries.len()
            invariant
                i <= self.entries@.len(),
                forall|j: int| 0 <= j < i ==> ((#[trigger] self.entries@[j]).node@, self.entries@[j].key@) != (node@, key@),
            decreases self.entries@.len() - i,
        {
            let e = &self.entries[i];
            let same_node = digest_eq(&e.node, node);
            if same_node && bytes_eq(&e.key, key) {
                return Some(i);
            }
            proof {
                if e.node@ == node@ {
                    lemma_digest_view_injective(e.node, *node);
                }
            }
            i = i + 1;
        }
        None
    }

    /// The value stored under `(node, key)`, if any.
    pub fn get(&self, node: &Digest, key: &Vec<u8>) -> (r: Option<Vec<u8>>)
        ensures
            match r {
                Some(v) => self@.contains_key((node@, key@)) && v@ == self@[(node@, key@)],
                None => !self@.contains_key((node@, key@)),
            },
    {
        proof {
            use_type_invariant(self);
        }
        match self.find(node, key) {
            Some(i) => Some(copy_bytes(&self.entries[i].value)),
            None => None,
        }
    }

    /// Stores `value` under `(node, key)`, replacing what was there.
    pub fn insert(&mut self, node: Digest, key: Vec<u8>, value: Vec<u8>)
        ensures
            final(self)@ == old(self)@.insert((node@, key@), value@),
    {
        proof {
            use_type_invariant(&*self);
        }
        let found = self.find(&node, &key);
        let mut taken = TextMap::new();
        std::mem::swap(&mut taken, self);
        proof {
            use_type_invariant(&taken);
        }
        let TextMap { mut entries, contents } = taken;
        let ghost old_entries = entries@;
        let ghost k = (node@, key@);
        let ghost new_contents = contents@.insert(k, value@);
        match found {
            Some(i) => {
                entries.set(i, TextEntry { node, key, value });
                assert forall|c: (Seq<u8>, Seq<u8>)| #[trigger] new_contents.contains_key(c) implies exists|j: int|
                    0 <= j < entries@.len() && ((#[trigger] entries@[j]).node@, entries@[j].key@) == c by {
                    if c != k {
                        let j = choose|j: int| 0 <= j < old_entries.len() && ((#[trigger] old_entries[j]).node@, old_entries[j].key@) == c;
                        assert((entries@[j].node@, entries@[j].key@) == c);
                    } else {
                        assert((entries@[i as int].node@, entries@[i as int].key@) == c);
                    }
                }
            },
            None => {
                assert forall|j: int| 0 <= j < old_entries.len() implies ((#[trigger] old_entries[j]).node@, old_entries[j].key@) != k by {
                    assert(contents@.contains_key((old_entries[j].node@, old_entries[j].key@)));
                }
                entries.push(TextEntry { node, key, value });
                assert forall|c: (Seq<u8>, Seq<u8>)| #[trigger] new_contents.contains_key(c) implies exists|j: int|
                    0 <= j < entries@.len() && ((#[trigger] entries@[j]).node@, entries@[j].key@) == c by {
                    if c != k {
                        let j = choose|j: int| 0 <= j < old_entries.len() && ((#[trigger] old_entries[j]).node@, old_entries[j].key@) == c;
                        assert((entries@[j].node@, entries@[j].key@) == c);
                    } else {
                        assert((entries@[old_entries.len() as int].node@, entries@[old_entries.len() as int].key@) == c);
                    }
                }
            },
        }
        assert(text_table_ok(entries@, new_contents));
        *self = TextMap { entries, contents: Ghost(new_contents) };
    }
}

} // verus!
