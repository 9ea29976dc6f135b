use vstd::prelude::*;

verus! {

/// A collection of variable bindings, from name to text value.
/// Each name appears at most once; only lookup by name is meaningful.
pub struct VarBag {
    names: Vec<String>,
    values: Vec<String>,
}

impl VarBag {
    /// The bag is well formed: one value per name, names unique.
    pub closed spec fn wf(&self) -> bool {
        &&& self.names@.len() == self.values@.len()
        &&& forall|i: int, j: int|
            0 <= i < j < self.names@.len() ==> self.names@[i]@ != self.names@[j]@
    }

    pub closed spec fn slot(&self, k: Seq<char>) -> int {
        choose|i: int| 0 <= i < self.names@.len() && self.names@[i]@ == k
    }

    proof fn lemma_slot(&self, i: int)
        requires
            self.wf(),
            0 <= i < self.names@.len(),
        ensures
            self@.contains_key(self.names@[i]@),
            self@[self.names@[i]@] == self.values@[i]@,
    {
        let k = self.names@[i]@;
        assert(self@.dom().contains(k));
        let j = self.slot(k);
        assert(0 <= j < self.names@.len() && self.names@[j]@ == k);
        assert(i == j);
    }
}

/// Whether `name` spells exactly the characters `t[lo..hi]`.
fn spells(name: &String, t: &str, lo: usize, hi: usize) -> (r: bool)
    requires
        lo <= hi <= t@.len(),
    ensures
        r == (name@ == t@.subrange(lo as int, hi as int)),
{
    let n = name.as_str().unicode_len();
    if n != hi - lo {
        return false;
    }
    let mut k: usize = 0;
    while k < n
        invariant
            n == name@.len() == hi - lo,
            lo <= hi <= t@.len(),
            k <= n,
            forall|j: int| 0 <= j < k ==> name@[j] == t@[lo + j],
        decreases n - k,
    {
        if name.as_str().get_char(k) != t.get_char(lo + k) {
            assert(name@[k as int] != t@.subrange(lo as int, hi as int)[k as int]);
            return false;
        }
        k = k + 1;
    }
    assert(name@ =~= t@.subrange(lo as int, hi as int));
    true
}

impl View for VarBag {
    type V = Map<Seq<char>, Seq<char>>;

    closed spec fn view(&self) -> Map<Seq<char>, Seq<char>> {
        Map::new(
            |k: Seq<char>| exists|i: int| 0 <= i < self.names@.len() && self.names@[i]@ == k,
            |k: Seq<char>| self.values@[self.slot(k)]@,
        )
    }
}

impl VarBag {
    /// An empty bag.
    pub fn new() -> (r: VarBag)
        ensures
            r.wf(),
            r@ == Map::<Seq<char>, Seq<char>>::empty(),
    {
        let r = VarBag { names: Vec::new(), values: Vec::new() };
        assert(r@ =~= Map::<Seq<char>, Seq<char>>::empty());
        r
    }

    /// Number of bindings.
    pub fn len(&self) -> (r: usize)
        requires
            self.wf(),
        ensures
            r == self@.len(),
    {
        proof {
            let n = self.names@.len();
            let ks = Seq::new(n, |i: int| self.names@[i]@);
            assert forall|i: int, j: int| 0 <= i < j < n implies ks[i] != ks[j] by {}
            ks.unique_seq_to_set();
            assert(ks.to_set() =~= self@.dom()) by {
                assert forall|k: Seq<char>| self@.dom().contains(k) implies ks.to_set().contains(
                    k,
                ) by {
                    let i = self.slot(k);
                    assert(ks[i] == k);
                }
            }
        }
        self.names.len()
    }

    /// Position of the binding named `key`, if there is one.
    fn position(&self, key: &String) -> (r: Option<usize>)
        requires
            self.wf(),
        ensures
            r is None ==> !self@.contains_key(key@),
            r matches Some(i) ==> i < self.names@.len() && self.names@[i as int]@ == key@,
    {
        let mut i: usize = 0;
        while i < self.names.len()
            invariant
                self.wf(),
                i <= self.names@.len(),
                forall|j: int| 0 <= j < i ==> self.names@[j]@ != key@,
            decreases self.names@.len() - i,
        {
            if self.names[i] == *key {
                return Some(i);
            }
            i = i + 1;
        }
        None
    }

    /// The value bound to `key`, if any.
    pub fn get(&self, key: &str) -> (r: Option<&String>)
        requires
            self.wf(),
        ensures
            r is None <==> !self@.contains_key(key@),
            r matches Some(v) ==> self@[key@] == v@,
    {
        let k = key.to_owned();
        match self.position(&k) {
            None => None,
            Some(i) => {
                proof {
                    self.lemma_slot(i as int);
                }
                Some(&self.values[i])
            },
        }
    }

    /// The value bound to the name spelled by `t[lo..hi]`, if any.
    pub fn get_chars(&self, t: &str, lo: usize, hi: usize) -> (r: Option<&String>)
        requires
            self.wf(),
            lo <= hi <= t@.len(),
        ensures
            r is None <==> !self@.contains_key(t@.subrange(lo as int, hi as int)),
            r matches Some(v) ==> self@[t@.subrange(lo as int, hi as int)] == v@,
    {
        let ghost key = t@.subrange(lo as int, hi as int);
        let mut i: usize = 0;
        while i < self.names.len()
            invariant
                self.wf(),
                i <= self.names@.len(),
                lo <= hi <= t@.len(),
                key == t@.subrange(lo as int, hi as int),
                forall|j: int| 0 <= j < i ==> self.names@[j]@ != key,
            decreases self.names@.len() - i,
        {
            if spells(&self.names[i], t, lo, hi) {
                proof {
                    self.lemma_slot(i as int);
                }
                return Some(&self.values[i]);
            }
            i = i + 1;
        }
        None
    }

    /// Binds `key` to `value`, replacing an earlier value of `key`.
    pub fn insert(&mut self, key: String, value: String)
        requires
            old(self).wf(),
        ensures
            final(self).wf(),
            final(self)@ == old(self)@.insert(key@, value@),
    {
        let ghost pre = *self;
        match self.position(&key) {
            Some(i) => {
                self.values.set(i, value);
                proof {
                    assert forall|k: Seq<char>| #[trigger]
                        self@.contains_key(k) implies self@[k] == pre@.insert(key@, value@)[k] by {
                        let j = self.slot(k);
                        self.lemma_slot(j);
                        if j != i {
                            pre.lemma_slot(j);
                        }
                    }
                    assert forall|k: Seq<char>| #[trigger]
                        pre@.insert(key@, value@).contains_key(k) implies self@.contains_key(
                            k,
                        ) by {
                        if k != key@ {
                            let j = pre.slot(k);
                            assert(self.names@[j]@ == k);
                        } else {
                            assert(self.names@[i as int]@ == k);
                        }
                    }
                    assert(self@ =~= pre@.insert(key@, value@));
                }
            },
            None => {
                self.names.push(key);
                self.values.push(value);
                proof {
                    let n = pre.names@.len() as int;
                    self.lemma_slot(n);
                    assert forall|k: Seq<char>| #[trigger]
                        self@.contains_key(k) implies self@[k] == pre@.insert(key@, value@)[k] by {
                        let j = self.slot(k);
                        self.lemma_slot(j);
                        if j != n {
                            pre.lemma_slot(j);
                        }
                    }
                    assert forall|k: Seq<char>| #[trigger]
                        pre@.insert(key@, value@).contains_key(k) implies self@.contains_key(
                            k,
                        ) by {
                        if k != key@ {
                            let j = pre.slot(k);
                            assert(self.names@[j]@ == k);
                        } else {
                            assert(self.names@[n]@ == k);
                        }
                    }
                    assert(self@ =~= pre@.insert(key@, value@));
                }
            },
        }
    }
}

} // verus!
