//! Small maps kept as two parallel vectors: one keyed by a pair of
//! integers, one keyed by a string.
use vstd::prelude::*;

verus! {

/// Map from `(u64, u64)` keys to values; each key stands at most once.
pub struct PairTable<V> {
    keys: Vec<(u64, u64)>,
    vals: Vec<V>,
    model: Ghost<Map<(u64, u64), V>>,
}

impl<V> View for PairTable<V> {
    type V = Map<(u64, u64), V>;

    closed spec fn view(&self) -> Map<(u64, u64), V> {
        self.model@
    }
}

impl<V> PairTable<V> {
    /// The vectors hold exactly the entries of the map.
    pub closed spec fn wf(&self) -> bool {
        &&& self.keys@.len() == self.vals@.len()
        &&& forall|i: int, j: int|
            0 <= i < j < self.keys@.len() ==> self.keys@[i] != self.keys@[j]
        &&& forall|i: int|
            0 <= i < self.keys@.len() ==> #[trigger] self.model@.contains_key(self.keys@[i])
                && self.model@[self.keys@[i]] == self.vals@[i]
        &&& forall|k: (u64, u64)|
            #[trigger] self.model@.contains_key(k) ==> exists|i: int|
                0 <= i < self.keys@.len() && self.keys@[i] == k
    }

    /// An empty table.
    pub fn new() -> (r: Self)
        ensures
            r.wf(),
            r@ == Map::<(u64, u64), V>::empty(),
    {
        PairTable { keys: Vec::new(), vals: Vec::new(), model: Ghost(Map::empty()) }
    }

    /// Position of `k` in the vectors.
    fn find(&self, k: (u64, u64)) -> (r: Option<usize>)
        requires
            self.wf(),
        ensures
            match r {
                Some(i) => i < self.keys@.len() && self.keys@[i as int] == k,
                None => !self@.contains_key(k),
            },
    {
        let mut i: usize = 0;
        while i < self.keys.len()
            invariant
                self.wf(),
                i <= self.keys@.len(),
                forall|j: int| 0 <= j < i ==> self.keys@[j] != k,
            decreases self.keys@.len() - i,
        {
            if self.keys[i].0 == k.0 && self.keys[i].1 == k.1 {
                return Some(i);
            }
            i += 1;
        }
        None
    }

    /// The value stored under `k`.
    pub fn get(&self, k: (u64, u64)) -> (r: Option<&V>)
        requires
            self.wf(),
        ensures
            match r {
                Some(v) => self@.contains_key(k) && *v == self@[k],
                None => !self@.contains_key(k),
            },
    {
        match self.find(k) {
            Some(i) => {
                assert(self.model@.contains_key(self.keys@[i as int]));
                Some(&self.vals[i])
            },
            None => None,
        }
    }

    /// Stores `v` under `k` and hands back what was stored there before.
    pub fn set(&mut self, k: (u64, u64), v: V) -> (r: Option<V>)
        requires
            old(self).wf(),
        ensures
            final(self).wf(),
            final(self)@ == old(self)@.insert(k, v),
            match r {
                Some(p) => old(self)@.contains_key(k) && p == old(self)@[k],
                None => !old(self)@.contains_key(k),
            },
    {
        match self.find(k) {
            Some(i) => {
                let mut v = v;
                let ghost nv = v;
                assert(old(self).model@.contains_key(old(self).keys@[i as int]));
                std::mem::swap(&mut self.vals[i], &mut v);
                self.model = Ghost(self.model@.insert(k, nv));
                assert forall|j: int| 0 <= j < self.keys@.len() implies #[trigger] self.model@.contains_key(
                    self.keys@[j],
                ) && self.model@[self.keys@[j]] == self.vals@[j] by {
                    if j != i {
                        assert(self.keys@[j] != self.keys@[i as int]);
                        assert(old(self).model@.contains_key(old(self).keys@[j]));
                    }
                }
                assert forall|q: (u64, u64)| #[trigger] self.model@.contains_key(q) implies exists|
                    j: int,
                | 0 <= j < self.keys@.len() && self.keys@[j] == q by {
                    if q == k {
                        assert(self.keys@[i as int] == q);
                    } else {
                        assert(old(self).model@.contains_key(q));
                        let j = choose|j: int| 0 <= j < old(self).keys@.len() && old(self).keys@[j] == q;
                        assert(self.keys@[j] == q);
                    }
                }
                Some(v)
            },
            None => {
                let ghost nv = v;
                self.keys.push(k);
                self.vals.push(v);
                self.model = Ghost(self.model@.insert(k, nv));
                assert forall|q: (u64, u64)| #[trigger] self.model@.contains_key(q) implies exists|
                    j: int,
                | 0 <= j < self.keys@.len() && self.keys@[j] == q by {
                    if q == k {
                        assert(self.keys@[self.keys@.len() - 1] == q);
                    } else {
                        let j = choose|j: int| 0 <= j < old(self).keys@.len() && old(self).keys@[j] == q;
                        assert(self.keys@[j] == q);
                    }
                }
                None
            },
        }
    }
}

/// Map from string keys (by their characters) to values; each key stands at
/// most once.
pub struct StrTable<V> {
    keys: Vec<String>,
    vals: Vec<V>,
    model: Ghost<Map<Seq<char>, V>>,
}

impl<V> View for StrTable<V> {
    type V = Map<Seq<char>, V>;

    closed spec fn view(&self) -> Map<Seq<char>, V> {
        self.model@
    }
}

impl<V> StrTable<V> {
    /// The vectors hold exactly the entries of the map.
    pub closed spec fn wf(&self) -> bool {
        &&& self.keys@.len() == self.vals@.len()
        &&& forall|i: int, j: int|
            0 <= i < j < self.keys@.len() ==> self.keys@[i]@ != self.keys@[j]@
        &&& forall|i: int|
            0 <= i < self.keys@.len() ==> #[trigger] self.model@.contains_key(self.keys@[i]@)
                && self.model@[self.keys@[i]@] == self.vals@[i]
        &&& forall|k: Seq<char>|
            #[trigger] self.model@.contains_key(k) ==> exists|i: int|
                0 <= i < self.keys@.len() && self.keys@[i]@ == k
    }

    /// An empty table.
    pub fn new() -> (r: Self)
        ensures
            r.wf(),
            r@ == Map::<Seq<char>, V>::empty(),
    {
        StrTable { keys: Vec::new(), vals: Vec::new(), model: Ghost(Map::empty()) }
    }

    /// Position of `k` in the vectors.
    fn find(&self, k: &String) -> (r: Option<usize>)
        requires
            self.wf(),
        ensures
            match r {
                Some(i) => i < self.keys@.len() && self.keys@[i as int]@ == k@,
                None => !self@.contains_key(k@),
            },
    {
        let mut i: usize = 0;
        while i < self.keys.len()
            invariant
                self.wf(),
                i <= self.keys@.len(),
                forall|j: int| 0 <= j < i ==> self.keys@[j]@ != k@,
            decreases self.keys@.len() - i,
        {
            if self.keys[i] == *k {
                return Some(i);
            }
            i += 1;
        }
        None
    }

    /// The value stored under `k`.
    pub fn get(&self, k: &String) -> (r: Option<&V>)
        requires
            self.wf(),
        ensures
            match r {
                Some(v) => self@.contains_key(k@) && *v == self@[k@],
                None => !self@.contains_key(k@),
            },
    {
        match self.find(k) {
            Some(i) => {
                assert(self.model@.contains_key(self.keys@[i as int]@));
                Some(&self.vals[i])
            },
            None => None,
        }
    }

    /// Stores `v` under `k` and hands back what was stored there before.
    pub fn set(&mut self, k: String, v: V) -> (r: Option<V>)
        requires
            old(self).wf(),
        ensures
            final(self).wf(),
            final(self)@ == old(self)@.insert(k@, v),
            match r {
                Some(p) => old(self)@.contains_key(k@) && p == old(self)@[k@],
                None => !old(self)@.contains_key(k@),
            },
    {
        match self.find(&k) {
            Some(i) => {
                let mut v = v;
                let ghost nv = v;
                assert(old(self).model@.contains_key(old(self).keys@[i as int]@));
                std::mem::swap(&mut self.vals[i], &mut v);
                self.model = Ghost(self.model@.insert(k@, nv));
                assert forall|j: int| 0 <= j < self.keys@.len() implies #[trigger] self.model@.contains_key(
                    self.keys@[j]@,
                ) && self.model@[self.keys@[j]@] == self.vals@[j] by {
                    if j != i {
                        assert(self.keys@[j]@ != self.keys@[i as int]@);
                        assert(old(self).model@.contains_key(old(self).keys@[j]@));
                    }
                }
                assert forall|q: Seq<char>| #[trigger] self.model@.contains_key(q) implies exists|
                    j: int,
                | 0 <= j < self.keys@.len() && self.keys@[j]@ == q by {
                    if q == k@ {
                        assert(self.keys@[i as int]@ == q);
                    } else {
                        assert(old(self).model@.contains_key(q));
                        let j = choose|j: int|
                            0 <= j < old(self).keys@.len() && old(self).keys@[j]@ == q;
                        assert(self.keys@[j]@ == q);
                    }
                }
                Some(v)
            },
            None => {
                let ghost nv = v;
                let ghost kv = k@;
                self.keys.push(k);
                self.vals.push(v);
                self.model = Ghost(self.model@.insert(kv, nv));
                assert forall|q: Seq<char>| #[trigger] self.model@.contains_key(q) implies exists|
                    j: int,
                | 0 <= j < self.keys@.len() && self.keys@[j]@ == q by {
                    if q == kv {
                        assert(self.keys@[self.keys@.len() - 1]@ == q);
                    } else {
                        let j = choose|j: int|
                            0 <= j < old(self).keys@.len() && old(self).keys@[j]@ == q;
                        assert(self.keys@[j]@ == q);
                    }
                }
                None
            },
        }
    }
}

} // verus!
