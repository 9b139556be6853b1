//! A map from names to values, kept as a list of distinct names.
use vstd::prelude::*;

verus! {

struct NameEntry<V> {
    name: String,
    value: V,
}

spec fn consistent<V>(entries: Seq<NameEntry<V>>, map: Map<Seq<char>, V>) -> bool {
    &&& forall|i: int|
        0 <= i < entries.len() ==> {
            &&& map.contains_key(#[trigger] entries[i].name@)
            &&& map[entries[i].name@] == entries[i].value
        }
    &&& forall|k: Seq<char>|
        #[trigger] map.contains_key(k) ==> exists|i: int|
            0 <= i < entries.len() && #[trigger] entries[i].name@ == k
    &&& forall|i: int, j: int|
        0 <= i < j < entries.len() ==> #[trigger] entries[i].name@ != #[trigger] entries[j].name@
}

/// Values looked up by name; a name appears at most once.
pub struct NameMap<V> {
    entries: Vec<NameEntry<V>>,
    map: Ghost<Map<Seq<char>, V>>,
}

impl<V> View for NameMap<V> {
    type V = Map<Seq<char>, V>;

    closed spec fn view(&self) -> Map<Seq<char>, V> {
        self.map@
    }
}

impl<V> NameMap<V> {
    #[verifier::type_invariant]
    closed spec fn entries_match_map(self) -> bool {
        consistent(self.entries@, self.map@)
    }

    /// An empty map.
    pub fn new() -> (r: Self)
        ensures
            r@ == Map::<Seq<char>, V>::empty(),
    {
        NameMap { entries: Vec::new(), map: Ghost(Map::empty()) }
    }

    /// The position of the entry named `name`, if there is one.
    fn position(&self, name: &str) -> (r: Option<usize>)
        ensures
            r matches Some(i) ==> i < self.entries@.len() && self.entries@[i as int].name@ == name@,
            r is None ==> !self@.contains_key(name@),
    {
        proof {
            use_type_invariant(self);
        }
        let key = name.to_owned();
        let mut i: usize = 0;
        while i < self.entries.len()
            invariant
                i <= self.entries@.len(),
                key@ == name@,
                forall|j: int| 0 <= j < i ==> #[trigger] self.entries@[j].name@ != name@,
            decreases self.entries.len() - i,
        {
            if self.entries[i].name == key {
                return Some(i);
            }
            i = i + 1;
        }
        None
    }

    /// Whether a value is stored under `name`.
    pub fn contains(&self, name: &str) -> (r: bool)
        ensures
            r == self@.contains_key(name@),
    {
        proof {
            use_type_invariant(self);
        }
        self.position(name).is_some()
    }

    /// The value stored under `name`.
    pub fn get(&self, name: &str) -> (r: Option<&V>)
        ensures
            r == (if self@.contains_key(name@) {
                Some(&self@[name@])
            } else {
                None
            }),
    {
        proof {
            use_type_invariant(self);
        }
        match self.position(name) {
            Some(i) => Some(&self.entries[i].value),
            None => None,
        }
    }

    /// Stores `value` under `name`, replacing what was stored there.
    pub fn insert(&mut self, name: String, value: V)
        ensures
            final(self)@ == old(self)@.insert(name@, value),
    {
        proof {
            use_type_invariant(&*self);
        }
        let found = self.position(name.as_str());
        let mut taken = NameMap::new();
        std::mem::swap(self, &mut taken);
        proof {
            use_type_invariant(&taken);
        }
        let NameMap { entries: mut entries, map } = taken;
        let ghost old_entries = entries@;
        let ghost new_map = map@.insert(name@, value);
        let ghost at: int;
        match found {
            Some(i) => {
                entries.set(i, NameEntry { name, value });
                proof {
                    at = i as int;
                }
            },
            None => {
                entries.push(NameEntry { name, value });
                proof {
                    at = old_entries.len() as int;
                }
            },
        }
        assert(entries@[at].name@ == name@);
        assert forall|k: Seq<char>| #[trigger] new_map.contains_key(k) implies exists|j: int|
            0 <= j < entries@.len() && #[trigger] entries@[j].name@ == k by {
            if k != name@ {
                let j = choose|j: int| 0 <= j < old_entries.len() && #[trigger] old_entries[j].name@ == k;
                assert(entries@[j].name@ == k);
            } else {
                assert(entries@[at].name@ == k);
            }
        }
        assert forall|j: int| 0 <= j < entries@.len() implies {
            &&& new_map.contains_key(#[trigger] entries@[j].name@)
            &&& new_map[entries@[j].name@] == entries@[j].value
        } by {
            if j != at {
                assert(entries@[j] == old_entries[j]);
                assert(map@.contains_key(old_entries[j].name@));
            }
        }
        assert forall|j1: int, j2: int| 0 <= j1 < j2 < entries@.len() implies #[trigger] entries@[j1].name@
            != #[trigger] entries@[j2].name@ by {
            if j1 != at && j2 != at {
                assert(entries@[j1] == old_entries[j1]);
                assert(entries@[j2] == old_entries[j2]);
            } else if j1 == at {
                assert(entries@[j2] == old_entries[j2]);
                assert(map@.contains_key(old_entries[j2].name@));
            } else {
                assert(entries@[j1] == old_entries[j1]);
                assert(map@.contains_key(old_entries[j1].name@));
            }
        }
        assert(consistent(entries@, new_map));
        *self = NameMap { entries, map: Ghost(new_map) };
    }
}

impl<V: Copy> NameMap<V> {
    /// A copy of this map.
    pub fn copied(&self) -> (r: Self)
        ensures
            r@ == self@,
    {
        proof {
            use_type_invariant(self);
        }
        let mut entries: Vec<NameEntry<V>> = Vec::new();
        let mut i: usize = 0;
        while i < self.entries.len()
            invariant
                i <= self.entries@.len(),
                entries@.len() == i,
                forall|j: int|
                    0 <= j < i ==> (#[trigger] entries@[j]).name@ == self.entries@[j].name@
                        && entries@[j].value == self.entries@[j].value,
            decreases self.entries.len() - i,
        {
            entries.push(NameEntry { name: self.entries[i].name.clone(), value: self.entries[i].value });
            i = i + 1;
        }
        assert forall|k: Seq<char>| #[trigger] self.map@.contains_key(k) implies exists|j: int|
            0 <= j < entries@.len() && #[trigger] entries@[j].name@ == k by {
            let j = choose|j: int| 0 <= j < self.entries@.len() && #[trigger] self.entries@[j].name@ == k;
            assert(entries@[j].name@ == k);
        }
        assert forall|j1: int, j2: int| 0 <= j1 < j2 < entries@.len() implies #[trigger] entries@[j1].name@
            != #[trigger] entries@[j2].name@ by {
            assert(self.entries@[j1].name@ != self.entries@[j2].name@);
        }
        assert forall|j: int| 0 <= j < entries@.len() implies {
            &&& self.map@.contains_key(#[trigger] entries@[j].name@)
            &&& self.map@[entries@[j].name@] == entries@[j].value
        } by {
            assert(self.map@.contains_key(self.entries@[j].name@));
        }
        assert(consistent(entries@, self.map@));
        NameMap { entries, map: Ghost(self.map@) }
    }
}

} // verus!
