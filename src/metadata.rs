//! Free-form metadata of a task: a map from string keys to string values.
use vstd::prelude::*;

verus! {

/// String keys mapped to string values, each key at most once.
pub struct Metadata {
    entries: Vec<(String, String)>,
    contents: Ghost<Map<Seq<char>, Seq<char>>>,
}

/// Each pair's key is stored once, with the pair's value, and `m` holds the
/// pairs' keys and nothing else.
spec fn pairs_match(pairs: Seq<(String, String)>, m: Map<Seq<char>, Seq<char>>) -> bool {
    &&& forall|i: int|
        #![trigger pairs[i]]
        0 <= i < pairs.len() ==> m.contains_key(pairs[i].0@) && m[pairs[i].0@] == pairs[i].1@
    &&& forall|k: Seq<char>|
        #[trigger] m.contains_key(k) ==> exists|i: int| 0 <= i < pairs.len() && #[trigger] pairs[i].0@ == k
    &&& forall|i: int, j: int|
        #![trigger pairs[i], pairs[j]]
        0 <= i < pairs.len() && 0 <= j < pairs.len() && i != j ==> pairs[i].0@ != pairs[j].0@
}

impl View for Metadata {
    type V = Map<Seq<char>, Seq<char>>;

    closed spec fn view(&self) -> Map<Seq<char>, Seq<char>> {
        self.contents@
    }
}

impl Metadata {
    #[verifier::type_invariant]
    spec fn entries_match(self) -> bool {
        pairs_match(self.entries@, self.contents@)
    }

    /// An empty map.
    pub fn new() -> (r: Metadata)
        ensures
            r@ == Map::<Seq<char>, Seq<char>>::empty(),
    {
        Metadata { entries: Vec::new(), contents: Ghost(Map::empty()) }
    }

    /// The position of `key` among the entries, if it is there.
    fn position(&self, key: &String) -> (r: Option<usize>)
        ensures
            match r {
                Some(i) => i < self.entries@.len() && self.entries@[i as int].0@ == key@,
                None => !self@.contains_key(key@),
            },
    {
        proof {
            use_type_invariant(self);
        }
        let mut i: usize = 0;
        while i < self.entries.len()
            invariant
                i <= self.entries@.len(),
                forall|j: int| 0 <= j < i ==> self.entries@[j].0@ != key@,
            decreases self.entries@.len() - i,
        {
            if self.entries[i].0 == *key {
                return Some(i);
            }
            i = i + 1;
        }
        None
    }

    /// Returns the value stored under `key`, if any.
    pub fn get(&self, key: &String) -> (r: Option<&String>)
        ensures
            match r {
                Some(v) => self@.contains_key(key@) && v@ == self@[key@],
                None => !self@.contains_key(key@),
            },
    {
        proof {
            use_type_invariant(self);
        }
        match self.position(key) {
            Some(i) => Some(&self.entries[i].1),
            None => None,
        }
    }

    /// Stores `val` under `key`, replacing any value already there.
    pub fn insert(&mut self, key: String, val: String)
        ensures
            final(self)@ == old(self)@.insert(key@, val@),
    {
        proof {
            use_type_invariant(&*self);
        }
        match self.position(&key) {
            Some(i) => {
                self.replace_at(i, key, val);
            },
            None => {
                let mut taken = Metadata::new();
                std::mem::swap(self, &mut taken);
                proof {
                    use_type_invariant(&taken);
                }
                let Metadata { mut entries, contents } = taken;
                let ghost old_entries = entries@;
                let ghost m = contents@.insert(key@, val@);
                entries.push((key, val));
                assert forall|k: Seq<char>| #[trigger] m.contains_key(k) implies exists|i: int|
                    0 <= i < entries@.len() && #[trigger] entries@[i].0@ == k by {
                    if k != entries@[old_entries.len() as int].0@ {
                        let j = choose|j: int|
                            0 <= j < old_entries.len() && #[trigger] old_entries[j].0@ == k;
                        assert(entries@[j] == old_entries[j]);
                    }
                }
                *self = Metadata { entries, contents: Ghost(m) };
            },
        }
    }

    /// Stores `val` under `key` if `key` is already there, and says whether
    /// it was.
    pub fn update(&mut self, key: String, val: String) -> (r: bool)
        ensures
            r == old(self)@.contains_key(key@),
            r ==> final(self)@ == old(self)@.insert(key@, val@),
            !r ==> final(self)@ == old(self)@,
    {
        proof {
            use_type_invariant(&*self);
        }
        match self.position(&key) {
            Some(i) => {
                self.replace_at(i, key, val);
                true
            },
            None => false,
        }
    }

    fn replace_at(&mut self, i: usize, key: String, val: String)
        requires
            i < old(self).entries@.len(),
            old(self).entries@[i as int].0@ == key@,
        ensures
            final(self)@ == old(self)@.insert(key@, val@),
    {
        proof {
            use_type_invariant(&*self);
        }
        let mut taken = Metadata::new();
        std::mem::swap(self, &mut taken);
        proof {
            use_type_invariant(&taken);
        }
        let Metadata { mut entries, contents } = taken;
        let ghost old_entries = entries@;
        let ghost m = contents@.insert(key@, val@);
        entries.set(i, (key, val));
        assert forall|k: Seq<char>| #[trigger] m.contains_key(k) implies exists|j: int|
            0 <= j < entries@.len() && #[trigger] entries@[j].0@ == k by {
            let j = choose|j: int| 0 <= j < old_entries.len() && #[trigger] old_entries[j].0@ == k;
            assert(entries@[j].0@ == k);
        }
        *self = Metadata { entries, contents: Ghost(m) };
    }

    /// The stored pairs, each key once.
    pub fn pairs(&self) -> (r: &Vec<(String, String)>)
        ensures
            forall|i: int|
                0 <= i < r@.len() ==> #[trigger] self@.contains_key(r@[i].0@) && self@[r@[i].0@]
                    == r@[i].1@,
            forall|k: Seq<char>|
                #[trigger] self@.contains_key(k) ==> exists|i: int|
                    0 <= i < r@.len() && #[trigger] r@[i].0@ == k,
            forall|i: int, j: int|
                0 <= i < r@.len() && 0 <= j < r@.len() && i != j ==> #[trigger] r@[i].0@
                    != #[trigger] r@[j].0@,
    {
        proof {
            use_type_invariant(self);
        }
        &self.entries
    }
}

} // verus!
