//! A table of values keyed by name, where each name occurs once.

use vstd::prelude::*;
use crate::strings::same_text;

verus! {

/// The map that a list of named entries describes, later entries
/// overriding earlier ones.
pub open spec fn map_of<V>(s: Seq<(String, V)>) -> Map<Seq<char>, V>
    decreases s.len(),
{
    if s.len() == 0 {
        Map::empty()
    } else {
        map_of(s.drop_last()).insert(s.last().0@, s.last().1)
    }
}

/// No two entries have the same name.
pub open spec fn names_distinct<V>(s: Seq<(String, V)>) -> bool {
    forall|i: int, j: int|
        0 <= i < s.len() && 0 <= j < s.len() && i != j ==> #[trigger] s[i].0@ != #[trigger] s[j].0@
}

/// A name is in the map exactly when some entry has it, and with
/// distinct names its value is that entry's.
pub proof fn lemma_map_of<V>(s: Seq<(String, V)>, k: Seq<char>)
    ensures
        map_of(s).dom().contains(k) <==> exists|i: int| 0 <= i < s.len() && #[trigger] s[i].0@ == k,
        map_of(s).dom().finite(),
        names_distinct(s) ==> forall|i: int|
            0 <= i < s.len() && #[trigger] s[i].0@ == k ==> map_of(s)[k] == s[i].1,
    decreases s.len(),
{
    if s.len() > 0 {
        let t = s.drop_last();
        lemma_map_of(t, k);
        if map_of(s).dom().contains(k) && s.last().0@ != k {
            let i = choose|i: int| 0 <= i < t.len() && #[trigger] t[i].0@ == k;
            assert(s[i].0@ == k);
        }
        if exists|i: int| 0 <= i < s.len() && #[trigger] s[i].0@ == k {
            let i = choose|i: int| 0 <= i < s.len() && #[trigger] s[i].0@ == k;
            if i < s.len() - 1 {
                assert(t[i].0@ == k);
            }
        }
        if names_distinct(s) {
            assert forall|i: int| 0 <= i < s.len() && #[trigger] s[i].0@ == k implies map_of(s)[k]
                == s[i].1 by {
                if i < s.len() - 1 {
                    assert(t[i] == s[i]);
                    assert(s[s.len() - 1].0@ != s[i].0@);
                }
            }
        }
    }
}

/// With distinct names, the map has one name per entry.
pub proof fn lemma_map_of_len<V>(s: Seq<(String, V)>)
    requires
        names_distinct(s),
    ensures
        map_of(s).dom().len() == s.len(),
    decreases s.len(),
{
    if s.len() > 0 {
        let t = s.drop_last();
        let k = s.last().0@;
        assert(names_distinct(t)) by {
            assert forall|a: int, b: int|
                0 <= a < t.len() && 0 <= b < t.len() && a != b implies #[trigger] t[a].0@
                != #[trigger] t[b].0@ by {
                assert(t[a] == s[a] && t[b] == s[b]);
            }
        }
        lemma_map_of_len(t);
        lemma_map_of(t, k);
        if map_of(t).dom().contains(k) {
            let i = choose|i: int| 0 <= i < t.len() && #[trigger] t[i].0@ == k;
            assert(s[i].0@ == s[s.len() - 1].0@);
        }
        assert(map_of(s).dom() == map_of(t).dom().insert(k));
    }
}

/// Replacing the value of entry `i` changes the map at that name only.
pub proof fn lemma_map_of_update<V>(s: Seq<(String, V)>, i: int, e: (String, V))
    requires
        0 <= i < s.len(),
        names_distinct(s),
        e.0@ == s[i].0@,
    ensures
        map_of(s.update(i, e)) =~= map_of(s).insert(s[i].0@, e.1),
        names_distinct(s.update(i, e)),
{
    let v = e.1;
    let u = s.update(i, e);
    assert(names_distinct(u)) by {
        assert forall|a: int, b: int|
            0 <= a < u.len() && 0 <= b < u.len() && a != b implies #[trigger] u[a].0@
            != #[trigger] u[b].0@ by {
            assert(u[a].0@ == s[a].0@);
            assert(u[b].0@ == s[b].0@);
        }
    }
    assert forall|k: Seq<char>| #[trigger] map_of(u).dom().contains(k) <==> map_of(s).insert(
        s[i].0@,
        v,
    ).dom().contains(k) by {
        lemma_map_of(u, k);
        lemma_map_of(s, k);
        if exists|j: int| 0 <= j < s.len() && #[trigger] s[j].0@ == k {
            let j = choose|j: int| 0 <= j < s.len() && #[trigger] s[j].0@ == k;
            assert(u[j].0@ == k);
        }
        if exists|j: int| 0 <= j < u.len() && #[trigger] u[j].0@ == k {
            let j = choose|j: int| 0 <= j < u.len() && #[trigger] u[j].0@ == k;
            assert(s[j].0@ == k);
        }
    }
    assert forall|k: Seq<char>| #[trigger] map_of(u).dom().contains(k) implies map_of(u)[k]
        == map_of(s).insert(s[i].0@, v)[k] by {
        lemma_map_of(u, k);
        lemma_map_of(s, k);
        let j = choose|j: int| 0 <= j < u.len() && #[trigger] u[j].0@ == k;
        assert(s[j].0@ == k);
        if j == i {
            assert(u[j].1 == v);
        } else {
            assert(u[j] == s[j]);
        }
    }
}

/// Values kept under names, each name once: a map from names to values.
pub struct Store<V> {
    entries: Vec<(String, V)>,
}

impl<V> View for Store<V> {
    type V = Map<Seq<char>, V>;

    closed spec fn view(&self) -> Map<Seq<char>, V> {
        map_of(self.entries@)
    }
}

impl<V> Store<V> {
    #[verifier::type_invariant]
    closed spec fn names_unique(&self) -> bool {
        names_distinct(self.entries@)
    }

    /// An empty table.
    pub fn new() -> (r: Self)
        ensures
            r@ == Map::<Seq<char>, V>::empty(),
    {
        Store { entries: Vec::new() }
    }

    /// The index of the entry named `key`.
    fn position(&self, key: &str) -> (r: Option<usize>)
        ensures
            r matches Some(i) ==> i < self.entries@.len() && self.entries@[i as int].0@ == key@,
            r is None ==> forall|j: int|
                0 <= j < self.entries@.len() ==> #[trigger] self.entries@[j].0@ != key@,
    {
        let n = self.entries.len();
        let mut i: usize = 0;
        while i < n
            invariant
                n == self.entries@.len(),
                i <= n,
                forall|j: int| 0 <= j < i ==> #[trigger] self.entries@[j].0@ != key@,
            decreases n - i,
        {
            if same_text(self.entries[i].0.as_str(), key) {
                return Some(i);
            }
            i += 1;
        }
        None
    }

    /// Whether a value is kept under `key`.
    pub fn contains_key(&self, key: &str) -> (r: bool)
        ensures
            r == self@.dom().contains(key@),
    {
        proof {
            lemma_map_of(self.entries@, key@);
        }
        self.position(key).is_some()
    }

    /// The value kept under `key`.
    pub fn get(&self, key: &str) -> (r: Option<&V>)
        ensures
            r matches Some(v) ==> self@.dom().contains(key@) && *v == self@[key@],
            r is None ==> !self@.dom().contains(key@),
    {
        proof {
            use_type_invariant(self);
            lemma_map_of(self.entries@, key@);
        }
        match self.position(key) {
            Some(i) => Some(&self.entries[i].1),
            None => None,
        }
    }

    /// The values kept, each once.
    pub fn values(&self) -> (r: Vec<&V>)
        ensures
            r@.len() == self@.dom().len(),
            forall|i: int| 0 <= i < r@.len() ==> self@.contains_value(*#[trigger] r@[i]),
            forall|k: Seq<char>|
                #[trigger] self@.dom().contains(k) ==> exists|i: int| 0 <= i < r@.len() && *r@[i]
                    == self@[k],
    {
        proof {
            use_type_invariant(self);
        }
        let n = self.entries.len();
        let mut out: Vec<&V> = Vec::new();
        let mut i: usize = 0;
        while i < n
            invariant
                n == self.entries@.len(),
                names_distinct(self.entries@),
                i <= n,
                out@.len() == i,
                forall|j: int| 0 <= j < i ==> *out@[j] == #[trigger] self.entries@[j].1,
            decreases n - i,
        {
            out.push(&self.entries[i].1);
            i += 1;
        }
        proof {
            lemma_map_of_len(self.entries@);
            assert forall|j: int| 0 <= j < out@.len() implies self@.contains_value(*#[trigger] out@[j]) by {
                let k = self.entries@[j].0@;
                lemma_map_of(self.entries@, k);
                assert(self.entries@[j].0@ == k);
                assert(self@.dom().contains(k));
                assert(self@[k] == self.entries@[j].1);
                assert(*out@[j] == self.entries@[j].1);
            }
            assert forall|k: Seq<char>| #[trigger] self@.dom().contains(k) implies exists|j: int|
                0 <= j < out@.len() && *out@[j] == self@[k] by {
                lemma_map_of(self.entries@, k);
                let j = choose|j: int| 0 <= j < self.entries@.len() && #[trigger] self.entries@[j].0@ == k;
                assert(*out@[j] == self.entries@[j].1);
            }
        }
        out
    }

    /// Keeps `value` under `key`, replacing what was kept there.
    pub fn insert(&mut self, key: String, value: V)
        ensures
            final(self)@ == old(self)@.insert(key@, value),
    {
        proof {
            use_type_invariant(&*self);
        }
        let found = self.position(key.as_str());
        let mut entries: Vec<(String, V)> = Vec::new();
        std::mem::swap(&mut entries, &mut self.entries);
        let ghost s = entries@;
        match found {
            Some(i) => {
                let mut slot = (key, value);
                entries.set_and_swap(i, &mut slot);
                proof {
                    lemma_map_of_update(s, i as int, entries@[i as int]);
                    assert(entries@ =~= s.update(i as int, entries@[i as int]));
                }
            },
            None => {
                let ghost k = key@;
                entries.push((key, value));
                proof {
                    assert(entries@.drop_last() =~= s);
                    assert forall|a: int, b: int|
                        0 <= a < entries@.len() && 0 <= b < entries@.len() && a != b implies
                        #[trigger] entries@[a].0@ != #[trigger] entries@[b].0@ by {
                        if a < s.len() && b < s.len() {
                            assert(entries@[a] == s[a]);
                            assert(entries@[b] == s[b]);
                        } else if a < s.len() {
                            assert(entries@[a] == s[a]);
                        } else {
                            assert(entries@[b] == s[b]);
                        }
                    }
                }
            },
        }
        self.entries = entries;
    }
}

impl<T> Store<Vec<T>> {
    /// Adds `item` to the list kept under `key`, starting a list there
    /// when there is none.
    pub fn push_to(&mut self, key: String, item: T)
        ensures
            final(self)@.dom() == old(self)@.dom().insert(key@),
            final(self)@[key@]@ == if old(self)@.dom().contains(key@) {
                old(self)@[key@]@.push(item)
            } else {
                seq![item]
            },
            forall|k: Seq<char>| k != key@ && #[trigger] old(self)@.dom().contains(k) ==> final(self)@[k]
                == old(self)@[k],
    {
        proof {
            use_type_invariant(&*self);
            lemma_map_of(self.entries@, key@);
        }
        let found = self.position(key.as_str());
        let mut entries: Vec<(String, Vec<T>)> = Vec::new();
        std::mem::swap(&mut entries, &mut self.entries);
        let ghost s = entries@;
        match found {
            Some(i) => {
                let mut slot = (key, Vec::new());
                entries.set_and_swap(i, &mut slot);
                let ghost old_list = slot.1;
                slot.1.push(item);
                let mut back = (slot.0, Vec::new());
                std::mem::swap(&mut back.1, &mut slot.1);
                entries.set_and_swap(i, &mut back);
                proof {
                    assert(entries@ =~= s.update(i as int, entries@[i as int]));
                    lemma_map_of_update(s, i as int, entries@[i as int]);
                }
            },
            None => {
                entries.push((key, vec![item]));
                proof {
                    assert(entries@.drop_last() =~= s);
                    assert forall|a: int, b: int|
                        0 <= a < entries@.len() && 0 <= b < entries@.len() && a != b implies
                        #[trigger] entries@[a].0@ != #[trigger] entries@[b].0@ by {
                        if a < s.len() && b < s.len() {
                            assert(entries@[a] == s[a]);
                            assert(entries@[b] == s[b]);
                        } else if a < s.len() {
                            assert(entries@[a] == s[a]);
                        } else {
                            assert(entries@[b] == s[b]);
                        }
                    }
                }
            },
        }
        self.entries = entries;
    }
}

} // verus!

verus! {

/// What is read under a name is what was last kept under it, and keeping
/// a value under one name leaves every other name as it was.
pub proof fn law_read_after_write<V>(m: Map<Seq<char>, V>, key: Seq<char>, value: V, other: Seq<char>)
    ensures
        m.insert(key, value).dom().contains(key),
        m.insert(key, value)[key] == value,
        other != key ==> (m.insert(key, value).dom().contains(other) == m.dom().contains(other)),
        other != key && m.dom().contains(other) ==> m.insert(key, value)[other] == m[other],
{
}

} // verus!
