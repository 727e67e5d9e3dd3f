use vstd::prelude::*;

verus! {

/// A key-value map of strings that keeps its entries in insertion order.
pub struct Dictionary {
    entries: Vec<(String, String)>,
}

/// No key occurs twice.
pub open spec fn keys_unique(e: Seq<(Seq<char>, Seq<char>)>) -> bool {
    forall|i: int, j: int|
        0 <= i < e.len() && 0 <= j < e.len() && i != j ==> #[trigger] e[i].0 != #[trigger] e[j].0
}

/// The key occurs at some entry.
pub open spec fn has_key(e: Seq<(Seq<char>, Seq<char>)>, k: Seq<char>) -> bool {
    exists|i: int| 0 <= i < e.len() && #[trigger] e[i].0 == k
}

impl View for Dictionary {
    type V = Seq<(Seq<char>, Seq<char>)>;

    closed spec fn view(&self) -> Seq<(Seq<char>, Seq<char>)> {
        self.entries@.map_values(|p: (String, String)| (p.0@, p.1@))
    }
}

impl Dictionary {
    #[verifier::type_invariant]
    spec fn keys_are_unique(&self) -> bool {
        keys_unique(self@)
    }

    pub fn new() -> (r: Dictionary)
        ensures
            r@ == Seq::<(Seq<char>, Seq<char>)>::empty(),
    {
        let r = Dictionary { entries: Vec::new() };
        assert(r@ =~= Seq::<(Seq<char>, Seq<char>)>::empty());
        r
    }

    pub fn len(&self) -> (r: usize)
        ensures
            r == self@.len(),
    {
        self.entries.len()
    }

    pub fn is_empty(&self) -> (r: bool)
        ensures
            r == (self@.len() == 0),
    {
        self.entries.len() == 0
    }

    /// Position of the entry with key `key`, if any.
    fn find(&self, key: &String) -> (r: Option<usize>)
        ensures
            match r {
                Some(i) => i < self@.len() && self@[i as int].0 == key@,
                None => !has_key(self@, key@),
            },
    {
        let mut i: usize = 0;
        while i < self.entries.len()
            invariant
                i <= self.entries@.len(),
                forall|j: int| 0 <= j < i ==> self@[j].0 != key@,
            decreases self.entries@.len() - i,
        {
            if self.entries[i].0 == *key {
                return Some(i);
            }
            i = i + 1;
        }
        None
    }

    /// Associates `value` with `key`: the entry of `key` keeps its place and takes
    /// the new value, or a new entry is appended.
    pub fn set(&mut self, key: &str, value: &str)
        ensures
            forall|i: int|
                0 <= i < old(self)@.len() && #[trigger] old(self)@[i].0 == key@ ==> final(self)@
                    == old(self)@.update(i, (key@, value@)),
            !has_key(old(self)@, key@) ==> final(self)@ == old(self)@.push((key@, value@)),
    {
        proof {
            use_type_invariant(&*self);
        }
        let k = key.to_owned();
        let v = value.to_owned();
        let found = self.find(&k);
        let mut taken = Dictionary::new();
        std::mem::swap(self, &mut taken);
        let mut entries = taken.entries;
        match found {
            Some(i) => {
                entries.set(i, (k, v));
                let ghost e = entries@.map_values(|p: (String, String)| (p.0@, p.1@));
                assert(e =~= old(self)@.update(i as int, (key@, value@)));
                assert(keys_unique(e)) by {
                    assert forall|a: int, b: int|
                        0 <= a < e.len() && 0 <= b < e.len() && a != b implies e[a].0 != e[b].0 by {
                        if a != i && b != i {
                            assert(old(self)@[a] == e[a] && old(self)@[b] == e[b]);
                        } else if a == i {
                            assert(old(self)@[b] == e[b]);
                        } else {
                            assert(old(self)@[a] == e[a]);
                        }
                    }
                }
                let d = Dictionary { entries };
                assert(d@ =~= old(self)@.update(i as int, (key@, value@)));
                *self = d;
            },
            None => {
                entries.push((k, v));
                let ghost e = entries@.map_values(|p: (String, String)| (p.0@, p.1@));
                assert(e =~= old(self)@.push((key@, value@)));
                assert(keys_unique(e)) by {
                    assert forall|a: int, b: int|
                        0 <= a < e.len() && 0 <= b < e.len() && a != b implies e[a].0 != e[b].0 by {
                        if a < old(self)@.len() && b < old(self)@.len() {
                            assert(old(self)@[a] == e[a] && old(self)@[b] == e[b]);
                        } else if a < old(self)@.len() {
                            assert(old(self)@[a] == e[a]);
                        } else {
                            assert(old(self)@[b] == e[b]);
                        }
                    }
                }
                let d = Dictionary { entries };
                assert(d@ =~= old(self)@.push((key@, value@)));
                *self = d;
            },
        }
    }

    /// The value associated with `key`.
    pub fn get(&self, key: &str) -> (r: Option<String>)
        ensures
            r.is_none() == !has_key(self@, key@),
            forall|i: int|
                0 <= i < self@.len() && #[trigger] self@[i].0 == key@ ==> r.is_some()
                    && r.unwrap()@ == self@[i].1,
    {
        proof {
            use_type_invariant(self);
        }
        let k = key.to_owned();
        match self.find(&k) {
            Some(i) => Some(self.entries[i].1.clone()),
            None => None,
        }
    }
}

} // verus!
