//! A finite map from fixed-size byte strings to fixed-size byte strings,
//! the shape of the pallet's storage maps.
use vstd::prelude::*;

verus! {

/// Whether two byte arrays hold the same bytes.
pub fn bytes_eq<const N: usize>(a: &[u8; N], b: &[u8; N]) -> (r: bool)
    ensures
        r == (a@ == b@),
{
    let mut i: usize = 0;
    while i < N
        invariant
            i <= N,
            a@.len() == N,
            b@.len() == N,
            forall|j: int| 0 <= j < i ==> a@[j] == b@[j],
        decreases N - i,
    {
        if a[i] != b[i] {
            return false;
        }
        i = i + 1;
    }
    assert(a@ =~= b@);
    true
}

/// Entries with pairwise distinct keys; the map sends each key's bytes to
/// its value's bytes.
pub struct ByteMap<const N: usize, const M: usize> {
    entries: Vec<([u8; N], [u8; M])>,
}

/// The index of the entry whose key is `k`, if any.
pub open spec fn has_key_at<const N: usize, const M: usize>(
    entries: Seq<([u8; N], [u8; M])>,
    k: Seq<u8>,
    i: int,
) -> bool {
    0 <= i < entries.len() && entries[i].0@ == k
}

/// No two entries share a key.
pub open spec fn distinct_keys<const N: usize, const M: usize>(
    entries: Seq<([u8; N], [u8; M])>,
) -> bool {
    forall|i: int, j: int|
        0 <= i < entries.len() && 0 <= j < entries.len() && i != j ==> #[trigger] entries[i].0@
            != #[trigger] entries[j].0@
}

proof fn lemma_entry_in_map<const N: usize, const M: usize>(
    entries: Seq<([u8; N], [u8; M])>,
    i: int,
)
    requires
        distinct_keys(entries),
        0 <= i < entries.len(),
    ensures
        map_of(entries).contains_key(entries[i].0@),
        map_of(entries)[entries[i].0@] == entries[i].1@,
{
    let k = entries[i].0@;
    assert(has_key_at(entries, k, i));
    let j = choose|j: int| #[trigger] has_key_at(entries, k, j);
    assert(has_key_at(entries, k, j));
    assert(j == i);
}

/// The map that a list of entries spells.
pub open spec fn map_of<const N: usize, const M: usize>(
    entries: Seq<([u8; N], [u8; M])>,
) -> Map<Seq<u8>, Seq<u8>> {
    Map::new(
        |k: Seq<u8>| exists|i: int| #[trigger] has_key_at(entries, k, i),
        |k: Seq<u8>| entries[choose|i: int| #[trigger] has_key_at(entries, k, i)].1@,
    )
}

impl<const N: usize, const M: usize> View for ByteMap<N, M> {
    type V = Map<Seq<u8>, Seq<u8>>;

    /// The map that the entries spell.
    closed spec fn view(&self) -> Map<Seq<u8>, Seq<u8>> {
        map_of(self.entries@)
    }
}

impl<const N: usize, const M: usize> ByteMap<N, M> {
    #[verifier::type_invariant]
    spec fn keys_are_distinct(self) -> bool {
        distinct_keys(self.entries@)
    }

    /// A copy of the map.
    pub fn copy(&self) -> (m: Self)
        ensures
            m.view() == self.view(),
    {
        proof {
            use_type_invariant(self);
        }
        let mut entries: Vec<([u8; N], [u8; M])> = Vec::new();
        let n = self.entries.len();
        for i in 0..n
            invariant
                n == self.entries@.len(),
                entries@ == self.entries@.take(i as int),
        {
            entries.push(self.entries[i]);
            assert(self.entries@.take(i + 1) =~= self.entries@.take(i as int).push(
                self.entries@[i as int],
            ));
        }
        assert(self.entries@.take(n as int) =~= self.entries@);
        ByteMap { entries }
    }

    /// An empty map.
    pub fn new() -> (m: Self)
        ensures
            m.view() == Map::<Seq<u8>, Seq<u8>>::empty(),
    {
        let m = ByteMap { entries: Vec::new() };
        assert(m.view() =~= Map::<Seq<u8>, Seq<u8>>::empty());
        m
    }

    fn find(&self, k: &[u8; N]) -> (r: Option<usize>)
        ensures
            r matches Some(i) ==> has_key_at(self.entries@, k@, i as int),
            r is None ==> !self.view().contains_key(k@),
    {
        let n = self.entries.len();
        for i in 0..n
            invariant
                n == self.entries@.len(),
                forall|j: int| 0 <= j < i ==> self.entries@[j].0@ != k@,
        {
            if bytes_eq(&self.entries[i].0, k) {
                return Some(i);
            }
        }
        assert(!self.view().contains_key(k@)) by {
            if self.view().contains_key(k@) {
                let j = choose|j: int| #[trigger] has_key_at(self.entries@, k@, j);
                assert(has_key_at(self.entries@, k@, j));
            }
        }
        None
    }

    /// The value stored under `k`, if any.
    pub fn get(&self, k: &[u8; N]) -> (r: Option<[u8; M]>)
        ensures
            r is Some <==> self.view().contains_key(k@),
            r matches Some(v) ==> v@ == self.view()[k@],
    {
        match self.find(k) {
            Some(i) => {
                proof {
                    use_type_invariant(self);
                    lemma_entry_in_map(self.entries@, i as int);
                }
                Some(self.entries[i].1)
            },
            None => None,
        }
    }

    /// Whether a value is stored under `k`.
    pub fn contains_key(&self, k: &[u8; N]) -> (r: bool)
        ensures
            r == self.view().contains_key(k@),
    {
        match self.find(k) {
            Some(i) => {
                proof {
                    use_type_invariant(self);
                    lemma_entry_in_map(self.entries@, i as int);
                }
                true
            },
            None => false,
        }
    }

    /// Stores `v` under `k`, replacing any value stored there.
    pub fn insert(&mut self, k: [u8; N], v: [u8; M])
        ensures
            final(self).view() == old(self).view().insert(k@, v@),
    {
        proof {
            use_type_invariant(&*self);
        }
        let ghost old_map = self.view();
        let ghost old_entries = self.entries@;
        match self.find(&k) {
            Some(i) => {
                let ghost updated = old_entries.update(i as int, (k, v));
                proof {
                    assert forall|a: int, b: int|
                        0 <= a < updated.len() && 0 <= b < updated.len() && a != b
                            implies #[trigger] updated[a].0@ != #[trigger] updated[b].0@ by {
                        assert(old_entries[a].0@ != old_entries[b].0@);
                    }
                }
                let mut entries: Vec<([u8; N], [u8; M])> = Vec::new();
                std::mem::swap(&mut entries, &mut self.entries);
                entries.set(i, (k, v));
                self.entries = entries;
            },
            None => {
                let ghost pushed = old_entries.push((k, v));
                proof {
                    assert forall|a: int, b: int|
                        0 <= a < pushed.len() && 0 <= b < pushed.len() && a != b
                            implies #[trigger] pushed[a].0@ != #[trigger] pushed[b].0@ by {
                        if a < old_entries.len() && b < old_entries.len() {
                            assert(old_entries[a].0@ != old_entries[b].0@);
                        } else if a < old_entries.len() {
                            assert(has_key_at(old_entries, old_entries[a].0@, a));
                        } else {
                            assert(has_key_at(old_entries, old_entries[b].0@, b));
                        }
                    }
                }
                let mut entries: Vec<([u8; N], [u8; M])> = Vec::new();
                std::mem::swap(&mut entries, &mut self.entries);
                entries.push((k, v));
                self.entries = entries;
            },
        }
        proof {
            assert(self.view() =~= old_map.insert(k@, v@)) by {
                assert forall|key: Seq<u8>|
                    #[trigger] self.view().contains_key(key) == old_map.insert(
                        k@,
                        v@,
                    ).contains_key(key) by {
                    if self.view().contains_key(key) {
                        let j = choose|j: int| #[trigger] has_key_at(self.entries@, key, j);
                        assert(has_key_at(self.entries@, key, j));
                        if key != k@ {
                            assert(has_key_at(old_entries, key, j));
                        }
                    }
                    if old_map.contains_key(key) && key != k@ {
                        let j = choose|j: int| #[trigger] has_key_at(old_entries, key, j);
                        assert(has_key_at(old_entries, key, j));
                        assert(has_key_at(self.entries@, key, j));
                    }
                    if key == k@ {
                        let idx = if self.entries@.len() > old_entries.len() {
                            old_entries.len() as int
                        } else {
                            choose|j: int| #[trigger] has_key_at(old_entries, key, j)
                        };
                        assert(has_key_at(self.entries@, key, idx));
                    }
                }
                assert forall|key: Seq<u8>| #[trigger]
                    self.view().contains_key(key) implies self.view()[key] == old_map.insert(
                        k@,
                        v@,
                    )[key] by {
                    if key != k@ {
                        let j = choose|j: int| #[trigger] has_key_at(self.entries@, key, j);
                        assert(has_key_at(self.entries@, key, j));
                        lemma_entry_in_map(self.entries@, j);
                        assert(has_key_at(old_entries, key, j));
                        lemma_entry_in_map(old_entries, j);
                    } else {
                        let idx = if self.entries@.len() > old_entries.len() {
                            old_entries.len() as int
                        } else {
                            choose|j: int| #[trigger] has_key_at(old_entries, key, j)
                        };
                        assert(has_key_at(self.entries@, key, idx));
                        lemma_entry_in_map(self.entries@, idx);
                    }
                }
            }
        }
    }

    /// Removes whatever is stored under `k`.
    pub fn remove(&mut self, k: &[u8; N])
        ensures
            final(self).view() == old(self).view().remove(k@),
    {
        proof {
            use_type_invariant(&*self);
        }
        let ghost old_map = self.view();
        let ghost old_entries = self.entries@;
        match self.find(k) {
            Some(i) => {
                let ghost removed = old_entries.remove(i as int);
                proof {
                    assert forall|a: int, b: int|
                        0 <= a < removed.len() && 0 <= b < removed.len() && a != b
                            implies #[trigger] removed[a].0@ != #[trigger] removed[b].0@ by {
                        let oa = if a < i { a } else { a + 1 };
                        let ob = if b < i { b } else { b + 1 };
                        assert(removed[a] == old_entries[oa]);
                        assert(removed[b] == old_entries[ob]);
                        assert(old_entries[oa].0@ != old_entries[ob].0@);
                    }
                }
                let mut entries: Vec<([u8; N], [u8; M])> = Vec::new();
                std::mem::swap(&mut entries, &mut self.entries);
                entries.remove(i);
                self.entries = entries;
                proof {
                    assert(self.view() =~= old_map.remove(k@)) by {
                        assert forall|key: Seq<u8>|
                            #[trigger] self.view().contains_key(key) == old_map.remove(
                                k@,
                            ).contains_key(key) by {
                            if self.view().contains_key(key) {
                                let j = choose|j: int| #[trigger] has_key_at(self.entries@, key, j);
                                assert(has_key_at(self.entries@, key, j));
                                let oj = if j < i { j } else { j + 1 };
                                assert(self.entries@[j] == old_entries[oj]);
                                assert(has_key_at(old_entries, key, oj));
                                assert(old_entries[oj].0@ != old_entries[i as int].0@);
                            }
                            if old_map.contains_key(key) && key != k@ {
                                let oj = choose|j: int| #[trigger] has_key_at(old_entries, key, j);
                                assert(has_key_at(old_entries, key, oj));
                                assert(oj != i);
                                let j = if oj < i { oj } else { oj - 1 };
                                assert(self.entries@[j] == old_entries[oj]);
                                assert(has_key_at(self.entries@, key, j));
                            }
                        }
                        assert forall|key: Seq<u8>| #[trigger]
                            self.view().contains_key(key) implies self.view()[key]
                            == old_map.remove(k@)[key] by {
                            let j = choose|j: int| #[trigger] has_key_at(self.entries@, key, j);
                            assert(has_key_at(self.entries@, key, j));
                            lemma_entry_in_map(self.entries@, j);
                            let oj = if j < i { j } else { j + 1 };
                            assert(self.entries@[j] == old_entries[oj]);
                            assert(has_key_at(old_entries, key, oj));
                            let oj2 = choose|j2: int| #[trigger] has_key_at(old_entries, key, j2);
                            assert(has_key_at(old_entries, key, oj2));
                            assert(oj2 == oj);
                        }
                    }
                }
            },
            None => {
                assert(self.view() =~= old_map.remove(k@));
            },
        }
    }
}

} // verus!
