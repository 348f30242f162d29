//! A map from caller-chosen string identifiers to records, with insert and
//! overwrite semantics.
use vstd::prelude::*;

verus! {

/// Records keyed by string identifiers; each identifier appears once.
/// Kept as two vectors rather than a hash map: for `String` keys the
/// available hash-map specifications give no usable account of lookups,
/// while this form lets every operation state its exact effect on the map.
pub struct Registry<T> {
    keys: Vec<String>,
    values: Vec<T>,
}

impl<T> Registry<T> {
    pub closed spec fn wf(&self) -> bool {
        &&& self.keys@.len() == self.values@.len()
        &&& forall|i: int, j: int|
            0 <= i < self.keys@.len() && 0 <= j < self.keys@.len() && i != j
                ==> (#[trigger] self.keys@[i])@ != (#[trigger] self.keys@[j])@
    }

    spec fn has(&self, k: Seq<char>) -> bool {
        exists|i: int| 0 <= i < self.keys@.len() && (#[trigger] self.keys@[i])@ == k
    }

    spec fn index_of(&self, k: Seq<char>) -> int {
        choose|i: int| 0 <= i < self.keys@.len() && (#[trigger] self.keys@[i])@ == k
    }

    proof fn lemma_index_of(&self, i: int)
        requires
            self.wf(),
            0 <= i < self.keys@.len(),
        ensures
            self.has(self.keys@[i]@),
            self.index_of(self.keys@[i]@) == i,
    {
        let k = self.keys@[i]@;
        assert(self.has(k));
        let j = self.index_of(k);
        assert(self.keys@[j]@ == k);
    }

    /// Creates an empty registry.
    pub fn new() -> (r: Registry<T>)
        ensures
            r.wf(),
            r@ == Map::<Seq<char>, T>::empty(),
    {
        let r = Registry { keys: Vec::new(), values: Vec::new() };
        assert(r@ =~= Map::<Seq<char>, T>::empty());
        r
    }

    fn find(&self, key: &str) -> (r: Option<usize>)
        requires
            self.wf(),
        ensures
            r matches Some(i) ==> i < self.keys@.len() && self.keys@[i as int]@ == key@
                && self.index_of(key@) == i,
            r is None ==> !self.has(key@),
    {
        let owned = key.to_owned();
        let mut i: usize = 0;
        while i < self.keys.len()
            invariant
                self.wf(),
                owned@ == key@,
                i <= self.keys@.len(),
                forall|j: int| 0 <= j < i ==> (#[trigger] self.keys@[j])@ != key@,
            decreases self.keys@.len() - i,
        {
            if self.keys[i] == owned {
                proof {
                    self.lemma_index_of(i as int);
                }
                return Some(i);
            }
            i = i + 1;
        }
        None
    }

    /// Whether `key` is registered.
    pub fn contains(&self, key: &str) -> (r: bool)
        requires
            self.wf(),
        ensures
            r == self@.contains_key(key@),
    {
        self.find(key).is_some()
    }

    /// The record registered under `key`, if any.
    pub fn get(&self, key: &str) -> (r: Option<&T>)
        requires
            self.wf(),
        ensures
            r matches Some(v) ==> self@.contains_key(key@) && *v == self@[key@],
            r is None ==> !self@.contains_key(key@),
    {
        match self.find(key) {
            Some(i) => Some(&self.values[i]),
            None => None,
        }
    }

    /// Registers `value` under `key`, replacing and returning any record
    /// that was there.
    pub fn insert(&mut self, key: &str, value: T) -> (r: Option<T>)
        requires
            old(self).wf(),
        ensures
            final(self).wf(),
            final(self)@ == old(self)@.insert(key@, value),
            r matches Some(v) ==> old(self)@.contains_key(key@) && v == old(self)@[key@],
            r is None ==> !old(self)@.contains_key(key@),
    {
        match self.find(key) {
            Some(i) => {
                let ghost before = *self;
                let previous = self.values.remove(i);
                self.values.insert(i, value);
                proof {
                    assert(self.values@ =~= before.values@.update(i as int, value));
                    assert forall|k: Seq<char>| #[trigger] self@.contains_key(k) == before@.insert(key@, value).contains_key(k) by {
                        assert(self.keys@ == before.keys@);
                    }
                    assert forall|k: Seq<char>| self@.contains_key(k) implies #[trigger] self@[k] == before@.insert(key@, value)[k] by {
                        let j = before.index_of(k);
                        before.lemma_index_of(j);
                        self.lemma_index_of(j);
                    }
                    assert(self@ =~= before@.insert(key@, value));
                }
                Some(previous)
            },
            None => {
                let ghost before = *self;
                self.keys.push(key.to_owned());
                self.values.push(value);
                proof {
                    let n = before.keys@.len() as int;
                    self.lemma_index_of(n);
                    assert forall|k: Seq<char>| #[trigger] self@.contains_key(k) == before@.insert(key@, value).contains_key(k) by {
                        if before.has(k) {
                            let j = before.index_of(k);
                            assert(self.keys@[j] == before.keys@[j]);
                        }
                        if self.has(k) && k != key@ {
                            let j = self.index_of(k);
                            assert(before.keys@[j] == self.keys@[j]);
                        }
                    }
                    assert forall|k: Seq<char>| self@.contains_key(k) implies #[trigger] self@[k] == before@.insert(key@, value)[k] by {
                        if k != key@ {
                            let j = before.index_of(k);
                            before.lemma_index_of(j);
                            assert(self.keys@[j] == before.keys@[j]);
                            self.lemma_index_of(j);
                        }
                    }
                    assert(self@ =~= before@.insert(key@, value));
                }
                None
            },
        }
    }
}

impl<T> Registry<T> {
    /// The records in the order their identifiers were first registered.
    pub closed spec fn entries(&self) -> Seq<T> {
        self.values@
    }

    /// The identifiers, in the same order as `entries`.
    pub closed spec fn ids(&self) -> Seq<Seq<char>> {
        self.keys@.map_values(|k: String| k@)
    }

    /// `entries` lists the record of each identifier of `ids`, and `ids`
    /// lists every identifier of the map.
    pub proof fn lemma_entries(&self)
        requires
            self.wf(),
        ensures
            self.ids().len() == self.entries().len(),
            forall|i: int| 0 <= i < self.ids().len() ==> #[trigger] self@.contains_key(self.ids()[i])
                && self@[self.ids()[i]] == self.entries()[i],
            forall|k: Seq<char>| #[trigger] self@.contains_key(k) <==> self.ids().contains(k),
    {
        assert forall|i: int| 0 <= i < self.ids().len() implies #[trigger] self@.contains_key(self.ids()[i])
            && self@[self.ids()[i]] == self.entries()[i] by {
            self.lemma_index_of(i);
        }
        assert forall|k: Seq<char>| #[trigger] self@.contains_key(k) <==> self.ids().contains(k) by {
            if self@.contains_key(k) {
                let i = self.index_of(k);
                assert(self.ids()[i] == k);
            }
            if self.ids().contains(k) {
                let i = choose|i: int| 0 <= i < self.ids().len() && self.ids()[i] == k;
                assert(self.keys@[i]@ == k);
            }
        }
    }

    /// The number of records.
    pub fn len(&self) -> (r: usize)
        requires
            self.wf(),
        ensures
            r == self.entries().len(),
    {
        self.values.len()
    }

    /// The record at position `i` of `entries`.
    pub fn value_at(&self, i: usize) -> (r: &T)
        requires
            self.wf(),
            i < self.entries().len(),
        ensures
            *r == self.entries()[i as int],
    {
        &self.values[i]
    }
}

impl<T> View for Registry<T> {
    type V = Map<Seq<char>, T>;

    closed spec fn view(&self) -> Map<Seq<char>, T> {
        Map::new(|k: Seq<char>| self.has(k), |k: Seq<char>| self.values@[self.index_of(k)])
    }
}

} // verus!
