use vstd::prelude::*;

verus! {

/// Whether entry `i` of `e` is stored under the key `k`.
pub open spec fn holds_key_at(e: Seq<(String, String)>, i: int, k: Seq<char>) -> bool {
    0 <= i < e.len() && e[i].0@ == k
}

/// No two entries share a key.
pub open spec fn keys_unique(e: Seq<(String, String)>) -> bool {
    forall|i: int, j: int|
        0 <= i < e.len() && 0 <= j < e.len() && i != j ==> #[trigger] e[i].0@ != #[trigger] e[j].0@
}

/// The key/value mapping that a sequence of entries stands for.
pub open spec fn map_of_entries(e: Seq<(String, String)>) -> Map<Seq<char>, Seq<char>> {
    Map::new(
        |k: Seq<char>| exists|i: int| holds_key_at(e, i, k),
        |k: Seq<char>| e[choose|i: int| holds_key_at(e, i, k)].1@,
    )
}

/// The raw state of a session: each key maps to the serialized text of a value.
#[derive(Debug)]
pub struct SessionState {
    entries: Vec<(String, String)>,
}

impl View for SessionState {
    type V = Map<Seq<char>, Seq<char>>;

    closed spec fn view(&self) -> Map<Seq<char>, Seq<char>> {
        map_of_entries(self.entries@)
    }
}

/// With unique keys, the entry that holds a key gives its value in the mapping.
pub proof fn lemma_value_at(e: Seq<(String, String)>, i: int)
    requires
        keys_unique(e),
        0 <= i < e.len(),
    ensures
        map_of_entries(e).contains_key(e[i].0@),
        map_of_entries(e)[e[i].0@] == e[i].1@,
{
    let k = e[i].0@;
    assert(holds_key_at(e, i, k));
    let j = choose|j: int| holds_key_at(e, j, k);
    assert(e[j].0@ == e[i].0@);
}

impl SessionState {
    /// Keys are unique among the stored entries.
    #[verifier::type_invariant]
    spec fn wf(&self) -> bool {
        keys_unique(self.entries@)
    }

    /// An empty state.
    pub fn new() -> (r: SessionState)
        ensures
            r@ == Map::<Seq<char>, Seq<char>>::empty(),
    {
        let r = SessionState { entries: Vec::new() };
        assert(r@ =~= Map::<Seq<char>, Seq<char>>::empty());
        r
    }

    /// The position of the entry stored under `key`, if any.
    fn find(&self, key: &str) -> (r: Option<usize>)
        ensures
            match r {
                Some(i) => holds_key_at(self.entries@, i as int, key@),
                None => forall|i: int| !holds_key_at(self.entries@, i, key@),
            },
    {
        let wanted = key.to_owned();
        let mut i: usize = 0;
        while i < self.entries.len()
            invariant
                i <= self.entries.len(),
                wanted@ == key@,
                forall|j: int| 0 <= j < i ==> !holds_key_at(self.entries@, j, key@),
            decreases self.entries.len() - i,
        {
            if self.entries[i].0 == wanted {
                return Some(i);
            }
            i = i + 1;
        }
        None
    }

    /// Stores `value` under `key`, replacing any value that was there.
    pub fn insert(&mut self, key: &str, value: String)
        ensures
            final(self)@ == old(self)@.insert(key@, value@),
    {
        proof {
            use_type_invariant(&*self);
        }
        let ghost e0 = self.entries@;
        let new_key = key.to_owned();
        match self.find(key) {
            Some(i) => {
                let mut entries = Vec::new();
                std::mem::swap(&mut entries, &mut self.entries);
                entries.set(i, (new_key, value));
                let ghost e1 = entries@;
                assert(keys_unique(e1)) by {
                    assert forall|a: int, b: int|
                        0 <= a < e1.len() && 0 <= b < e1.len() && a != b implies
                        #[trigger] e1[a].0@ != #[trigger] e1[b].0@ by {
                        assert(e1[a].0@ == e0[a].0@);
                        assert(e1[b].0@ == e0[b].0@);
                    }
                }
                assert forall|k: Seq<char>| #[trigger] map_of_entries(e1).contains_key(k)
                    <==> map_of_entries(e0).insert(key@, value@).contains_key(k) by {
                    if map_of_entries(e0).contains_key(k) {
                        let j = choose|j: int| holds_key_at(e0, j, k);
                        assert(holds_key_at(e1, j, k));
                    }
                    if map_of_entries(e1).contains_key(k) {
                        let j = choose|j: int| holds_key_at(e1, j, k);
                        assert(holds_key_at(e0, j, k));
                    }
                }
                assert forall|k: Seq<char>| #[trigger] map_of_entries(e1).contains_key(k)
                    implies map_of_entries(e1)[k] == map_of_entries(e0).insert(key@, value@)[k] by {
                    let j = choose|j: int| holds_key_at(e1, j, k);
                    lemma_value_at(e1, j);
                    if j != i {
                        lemma_value_at(e0, j);
                    }
                }
                self.entries = entries;
                assert(self@ =~= old(self)@.insert(key@, value@));
            },
            None => {
                let mut entries = Vec::new();
                std::mem::swap(&mut entries, &mut self.entries);
                entries.push((new_key, value));
                let ghost e1 = entries@;
                let ghost n = e0.len() as int;
                assert(keys_unique(e1)) by {
                    assert forall|a: int, b: int|
                        0 <= a < e1.len() && 0 <= b < e1.len() && a != b implies
                        #[trigger] e1[a].0@ != #[trigger] e1[b].0@ by {
                        if a < n {
                            assert(!holds_key_at(e0, a, key@));
                        }
                        if b < n {
                            assert(!holds_key_at(e0, b, key@));
                        }
                    }
                }
                assert forall|k: Seq<char>| #[trigger] map_of_entries(e1).contains_key(k)
                    <==> map_of_entries(e0).insert(key@, value@).contains_key(k) by {
                    if map_of_entries(e0).contains_key(k) {
                        let j = choose|j: int| holds_key_at(e0, j, k);
                        assert(holds_key_at(e1, j, k));
                    }
                    if k == key@ {
                        assert(holds_key_at(e1, n, k));
                    }
                    if map_of_entries(e1).contains_key(k) {
                        let j = choose|j: int| holds_key_at(e1, j, k);
                        if j < n {
                            assert(holds_key_at(e0, j, k));
                        }
                    }
                }
                assert forall|k: Seq<char>| #[trigger] map_of_entries(e1).contains_key(k)
                    implies map_of_entries(e1)[k] == map_of_entries(e0).insert(key@, value@)[k] by {
                    let j = choose|j: int| holds_key_at(e1, j, k);
                    lemma_value_at(e1, j);
                    if j < n {
                        assert(e1[j] == e0[j]);
                        lemma_value_at(e0, j);
                    }
                }
                self.entries = entries;
                assert(self@ =~= old(self)@.insert(key@, value@));
            },
        }
    }

    /// Takes out the value stored under `key`, if any.
    pub fn remove(&mut self, key: &str) -> (r: Option<String>)
        ensures
            final(self)@ == old(self)@.remove(key@),
            match r {
                Some(v) => old(self)@.contains_key(key@) && v@ == old(self)@[key@],
                None => !old(self)@.contains_key(key@),
            },
    {
        proof {
            use_type_invariant(&*self);
        }
        let ghost e0 = self.entries@;
        match self.find(key) {
            Some(i) => {
                proof {
                    lemma_value_at(e0, i as int);
                }
                let mut entries = Vec::new();
                std::mem::swap(&mut entries, &mut self.entries);
                let (_, v) = entries.remove(i);
                let ghost e1 = entries@;
                assert forall|j: int| 0 <= j < e1.len() implies #[trigger] e1[j] == (if j < i {
                    e0[j]
                } else {
                    e0[j + 1]
                }) by {}
                assert(keys_unique(e1)) by {
                    assert forall|a: int, b: int|
                        0 <= a < e1.len() && 0 <= b < e1.len() && a != b implies
                        #[trigger] e1[a].0@ != #[trigger] e1[b].0@ by {
                        let a0 = if a < i { a } else { a + 1 };
                        let b0 = if b < i { b } else { b + 1 };
                        assert(e1[a] == e0[a0]);
                        assert(e1[b] == e0[b0]);
                    }
                }
                assert forall|k: Seq<char>| #[trigger] map_of_entries(e1).contains_key(k)
                    <==> map_of_entries(e0).remove(key@).contains_key(k) by {
                    if map_of_entries(e0).contains_key(k) && k != key@ {
                        let j = choose|j: int| holds_key_at(e0, j, k);
                        assert(j != i);
                        let j1 = if j < i { j } else { j - 1 };
                        assert(e1[j1] == e0[j]);
                        assert(holds_key_at(e1, j1, k));
                    }
                    if map_of_entries(e1).contains_key(k) {
                        let j = choose|j: int| holds_key_at(e1, j, k);
                        let j0 = if j < i { j } else { j + 1 };
                        assert(e1[j] == e0[j0]);
                        assert(holds_key_at(e0, j0, k));
                        assert(j0 != i);
                    }
                }
                assert forall|k: Seq<char>| #[trigger] map_of_entries(e1).contains_key(k)
                    implies map_of_entries(e1)[k] == map_of_entries(e0).remove(key@)[k] by {
                    let j = choose|j: int| holds_key_at(e1, j, k);
                    let j0 = if j < i { j } else { j + 1 };
                    assert(e1[j] == e0[j0]);
                    lemma_value_at(e1, j);
                    lemma_value_at(e0, j0);
                }
                self.entries = entries;
                assert(self@ =~= old(self)@.remove(key@));
                Some(v)
            },
            None => {
                assert(self@ =~= old(self)@.remove(key@));
                None
            },
        }
    }

    /// The value stored under `key`, if any, left in place.
    pub fn get(&self, key: &str) -> (r: Option<&String>)
        ensures
            match r {
                Some(v) => self@.contains_key(key@) && v@ == self@[key@],
                None => !self@.contains_key(key@),
            },
    {
        match self.find(key) {
            Some(i) => {
                proof {
                    use_type_invariant(self);
                    lemma_value_at(self.entries@, i as int);
                }
                Some(&self.entries[i].1)
            },
            None => None,
        }
    }
}

impl SessionState {
    /// The stored entries as key/value pairs, each key once, in no set order.
    pub fn to_pairs(&self) -> (r: Vec<(String, String)>)
        ensures
            keys_unique(r@),
            map_of_entries(r@) == self@,
    {
        proof {
            use_type_invariant(self);
        }
        let mut pairs: Vec<(String, String)> = Vec::new();
        let mut i: usize = 0;
        while i < self.entries.len()
            invariant
                i <= self.entries.len(),
                pairs@ == self.entries@.subrange(0, i as int),
            decreases self.entries.len() - i,
        {
            let (k, v) = &self.entries[i];
            pairs.push((k.clone(), v.clone()));
            i = i + 1;
            assert(pairs@ =~= self.entries@.subrange(0, i as int));
        }
        assert(pairs@ =~= self.entries@);
        pairs
    }

    /// Whether every key of `self` is stored in `other` with the same value.
    fn included_in(&self, other: &SessionState) -> (r: bool)
        ensures
            r == (forall|k: Seq<char>| #[trigger] self@.contains_key(k) ==> other@.contains_key(k)
                && other@[k] == self@[k]),
    {
        proof {
            use_type_invariant(self);
        }
        let mut i: usize = 0;
        while i < self.entries.len()
            invariant
                i <= self.entries.len(),
                keys_unique(self.entries@),
                forall|j: int|
                    0 <= j < i ==> #[trigger] other@.contains_key(self.entries@[j].0@)
                        && other@[self.entries@[j].0@] == self.entries@[j].1@,
            decreases self.entries.len() - i,
        {
            proof {
                lemma_value_at(self.entries@, i as int);
            }
            match other.get(self.entries[i].0.as_str()) {
                Some(v) => {
                    if !(*v == self.entries[i].1) {
                        assert(self@.contains_key(self.entries@[i as int].0@));
                        return false;
                    }
                },
                None => {
                    assert(self@.contains_key(self.entries@[i as int].0@));
                    return false;
                },
            }
            i = i + 1;
        }
        assert forall|k: Seq<char>| #[trigger] self@.contains_key(k) implies other@.contains_key(k)
            && other@[k] == self@[k] by {
            let j = choose|j: int| holds_key_at(self.entries@, j, k);
            lemma_value_at(self.entries@, j);
        }
        true
    }
}

impl PartialEq for SessionState {
    fn eq(&self, other: &SessionState) -> (r: bool) {
        let r = self.included_in(other) && other.included_in(self);
        proof {
            if r {
                assert(self@ =~= other@);
            }
        }
        r
    }
}

impl vstd::std_specs::cmp::PartialEqSpecImpl for SessionState {
    open spec fn obeys_eq_spec() -> bool {
        true
    }

    open spec fn eq_spec(&self, other: &SessionState) -> bool {
        self@ == other@
    }
}

impl Clone for SessionState {
    fn clone(&self) -> (r: SessionState)
        ensures
            r@ == self@,
    {
        SessionState { entries: self.to_pairs() }
    }
}

impl Default for SessionState {
    fn default() -> (r: SessionState)
        ensures
            r@ == Map::<Seq<char>, Seq<char>>::empty(),
    {
        SessionState::new()
    }
}

} // verus!
