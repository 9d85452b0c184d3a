//! A map keyed by strings, kept as two parallel vectors in which no key
//! occurs twice.

use vstd::prelude::*;

verus! {

/// Some position of `keys` holds the text `k`.
pub open spec fn has_key(keys: Seq<String>, k: Seq<char>) -> bool {
    exists|i: int| 0 <= i < keys.len() && (#[trigger] keys[i])@ == k
}

/// A position of `keys` that holds the text `k`, where there is one.
pub open spec fn key_index(keys: Seq<String>, k: Seq<char>) -> int {
    choose|i: int| 0 <= i < keys.len() && (#[trigger] keys[i])@ == k
}

/// No two positions of `keys` hold the same text.
pub open spec fn distinct_keys(keys: Seq<String>) -> bool {
    forall|i: int, j: int|
        0 <= i < keys.len() && 0 <= j < keys.len() && i != j ==> (#[trigger] keys[i])@ != (
        #[trigger] keys[j])@
}

/// The map that parallel sequences of keys and values stand for.
pub open spec fn entries_map<V>(keys: Seq<String>, values: Seq<V>) -> Map<Seq<char>, V> {
    Map::new(|k: Seq<char>| has_key(keys, k), |k: Seq<char>| values[key_index(keys, k)])
}

/// Where the keys are distinct, the position of a key's text is the key's own.
pub proof fn lemma_key_index(keys: Seq<String>, i: int)
    requires
        distinct_keys(keys),
        0 <= i < keys.len(),
    ensures
        has_key(keys, keys[i]@),
        key_index(keys, keys[i]@) == i,
{
    let j = key_index(keys, keys[i]@);
    assert(0 <= j < keys.len() && keys[j]@ == keys[i]@);
}

/// A key that is not there yet, put at the end, is an insertion into the map.
pub proof fn lemma_push_entry<V>(keys: Seq<String>, values: Seq<V>, key: String, value: V)
    requires
        distinct_keys(keys),
        keys.len() == values.len(),
        !has_key(keys, key@),
    ensures
        distinct_keys(keys.push(key)),
        entries_map(keys.push(key), values.push(value)) == entries_map(keys, values).insert(
            key@,
            value,
        ),
{
    let keys2 = keys.push(key);
    let values2 = values.push(value);
    assert forall|i: int, j: int|
        0 <= i < keys2.len() && 0 <= j < keys2.len() && i != j implies (#[trigger] keys2[i])@ != (
    #[trigger] keys2[j])@ by {
        if i < keys.len() && j < keys.len() {
            assert(keys[i]@ != keys[j]@);
        } else if i < keys.len() {
            assert(keys[i]@ != key@);
        } else {
            assert(keys[j]@ != key@);
        }
    }
    let lhs = entries_map(keys2, values2);
    let rhs = entries_map(keys, values).insert(key@, value);
    assert forall|k: Seq<char>| lhs.dom().contains(k) <==> rhs.dom().contains(k) by {
        if has_key(keys2, k) {
            let i = key_index(keys2, k);
            if i < keys.len() {
                assert(keys[i]@ == k);
            }
        }
        if has_key(keys, k) {
            let i = key_index(keys, k);
            assert(keys2[i]@ == k);
        }
        if k == key@ {
            assert(keys2[keys.len() as int]@ == k);
        }
    }
    assert forall|k: Seq<char>| #[trigger] lhs.dom().contains(k) implies lhs[k] == rhs[k] by {
        let i = key_index(keys2, k);
        lemma_key_index(keys2, i);
        if i < keys.len() {
            assert(keys[i]@ == k);
            lemma_key_index(keys, i);
        }
    }
    assert(lhs =~= rhs);
}

/// Taking out the entry at `i`, with the last entry moved into its place, is a
/// removal of its key from the map.
pub proof fn lemma_swap_remove_entry<V>(keys: Seq<String>, values: Seq<V>, i: int)
    requires
        distinct_keys(keys),
        keys.len() == values.len(),
        0 <= i < keys.len(),
    ensures
        distinct_keys(keys.update(i, keys.last()).drop_last()),
        !has_key(keys.update(i, keys.last()).drop_last(), keys[i]@),
        entries_map(
            keys.update(i, keys.last()).drop_last(),
            values.update(i, values.last()).drop_last(),
        ) == entries_map(keys, values).remove(keys[i]@),
        entries_map(keys, values).dom().contains(keys[i]@),
        entries_map(keys, values)[keys[i]@] == values[i],
{
    let last = keys.len() - 1;
    let keys2 = keys.update(i, keys.last()).drop_last();
    let values2 = values.update(i, values.last()).drop_last();
    // where each position of the new sequences came from
    let origin = |j: int| if j == i { last } else { j };
    assert forall|j: int| 0 <= j < keys2.len() implies (#[trigger] keys2[j]) == keys[origin(j)]
        && values2[j] == values[origin(j)] by {}
    assert forall|a: int, b: int|
        0 <= a < keys2.len() && 0 <= b < keys2.len() && a != b implies (#[trigger] keys2[a])@ != (
    #[trigger] keys2[b])@ by {
        assert(keys[origin(a)]@ != keys[origin(b)]@);
    }
    lemma_key_index(keys, i);
    if has_key(keys2, keys[i]@) {
        let j = key_index(keys2, keys[i]@);
        assert(keys[origin(j)]@ == keys[i]@);
        assert(false);
    }
    let lhs = entries_map(keys2, values2);
    let rhs = entries_map(keys, values).remove(keys[i]@);
    assert forall|k: Seq<char>| lhs.dom().contains(k) <==> rhs.dom().contains(k) by {
        if has_key(keys2, k) {
            let j = key_index(keys2, k);
            assert(keys[origin(j)]@ == k);
        }
        if has_key(keys, k) && k != keys[i]@ {
            let j = key_index(keys, k);
            if j == last {
                assert(keys2[i]@ == k);
            } else {
                assert(keys2[j]@ == k);
            }
        }
    }
    assert forall|k: Seq<char>| #[trigger] lhs.dom().contains(k) implies lhs[k] == rhs[k] by {
        let j = key_index(keys2, k);
        lemma_key_index(keys2, j);
        assert(keys[origin(j)]@ == k);
        lemma_key_index(keys, origin(j));
    }
    assert(lhs =~= rhs);
}

/// Distinct keys stand for a finite map with one entry for each of them.
pub proof fn lemma_entries_count<V>(keys: Seq<String>, values: Seq<V>)
    requires
        distinct_keys(keys),
        keys.len() == values.len(),
    ensures
        entries_map(keys, values).dom().finite(),
        entries_map(keys, values).dom().len() == keys.len(),
    decreases keys.len(),
{
    if keys.len() == 0 {
        assert(entries_map(keys, values).dom() =~= Set::<Seq<char>>::empty());
    } else {
        let keys0 = keys.drop_last();
        let values0 = values.drop_last();
        assert forall|i: int, j: int|
            0 <= i < keys0.len() && 0 <= j < keys0.len() && i != j implies (
        #[trigger] keys0[i])@ != (#[trigger] keys0[j])@ by {
            assert(keys[i]@ != keys[j]@);
        }
        lemma_entries_count(keys0, values0);
        if has_key(keys0, keys.last()@) {
            let i = key_index(keys0, keys.last()@);
            assert(keys[i]@ == keys[keys.len() - 1]@);
            assert(false);
        }
        lemma_push_entry(keys0, values0, keys.last(), values.last());
        assert(keys0.push(keys.last()) =~= keys);
        assert(values0.push(values.last()) =~= values);
        assert(entries_map(keys, values).dom() =~= entries_map(keys0, values0).dom().insert(
            keys.last()@,
        ));
    }
}

/// A finite map from strings to values of `V`.
#[derive(Debug)]
pub struct StringMap<V> {
    keys: Vec<String>,
    values: Vec<V>,
}

impl<V> View for StringMap<V> {
    type V = Map<Seq<char>, V>;

    closed spec fn view(&self) -> Map<Seq<char>, V> {
        entries_map(self.keys@, self.values@)
    }
}

impl<V> StringMap<V> {
    /// The two vectors run in parallel and no key occurs twice.
    pub closed spec fn wf(&self) -> bool {
        &&& self.keys@.len() == self.values@.len()
        &&& distinct_keys(self.keys@)
    }

    /// The number of entries.
    pub closed spec fn spec_len(&self) -> nat {
        self.keys@.len()
    }

    /// The key at position `i`, as text.
    pub closed spec fn spec_key(&self, i: int) -> Seq<char> {
        self.keys@[i]@
    }

    /// The positions enumerate the map: each holds a key of it, each key of it
    /// stands at one position, and no two positions hold the same key.
    pub proof fn lemma_positions(&self)
        requires
            self.wf(),
        ensures
            self@.dom().finite(),
            self@.dom().len() == self.spec_len(),
            forall|i: int|
                0 <= i < self.spec_len() ==> self@.dom().contains(#[trigger] self.spec_key(i)),
            forall|k: Seq<char>| #[trigger]
                self@.dom().contains(k) ==> exists|i: int|
                    0 <= i < self.spec_len() && #[trigger] self.spec_key(i) == k,
            forall|i: int, j: int|
                0 <= i < self.spec_len() && 0 <= j < self.spec_len() && i != j
                    ==> #[trigger] self.spec_key(i) != #[trigger] self.spec_key(j),
    {
        lemma_entries_count(self.keys@, self.values@);
        assert forall|i: int| 0 <= i < self.spec_len() implies self@.dom().contains(
            #[trigger] self.spec_key(i),
        ) by {
            lemma_key_index(self.keys@, i);
        }
        assert forall|k: Seq<char>| #[trigger] self@.dom().contains(k) implies exists|i: int|
            0 <= i < self.spec_len() && #[trigger] self.spec_key(i) == k by {
            let i = key_index(self.keys@, k);
            assert(self.spec_key(i) == k);
        }
    }

    /// The empty map.
    pub fn new() -> (r: Self)
        ensures
            r.wf(),
            r@ == Map::<Seq<char>, V>::empty(),
            r.spec_len() == 0,
    {
        let r = StringMap { keys: Vec::new(), values: Vec::new() };
        assert(r@ =~= Map::<Seq<char>, V>::empty());
        r
    }

    /// The number of entries.
    pub fn len(&self) -> (n: usize)
        requires
            self.wf(),
        ensures
            n == self.spec_len(),
            self@.dom().finite(),
            n == self@.dom().len(),
    {
        proof {
            lemma_entries_count(self.keys@, self.values@);
        }
        self.keys.len()
    }

    /// The position of `key`, if the map has it.
    fn position(&self, key: &String) -> (r: Option<usize>)
        requires
            self.wf(),
        ensures
            match r {
                Some(i) => i < self.keys@.len() && self.keys@[i as int]@ == key@,
                None => !has_key(self.keys@, key@),
            },
    {
        let mut i: usize = 0;
        while i < self.keys.len()
            invariant
                i <= self.keys@.len(),
                forall|j: int| 0 <= j < i ==> (#[trigger] self.keys@[j])@ != key@,
            decreases self.keys@.len() - i,
        {
            if self.keys[i] == *key {
                return Some(i);
            }
            i += 1;
        }
        None
    }

    /// Whether the map has `key`.
    pub fn contains_key(&self, key: &String) -> (r: bool)
        requires
            self.wf(),
        ensures
            r == self@.dom().contains(key@),
    {
        self.position(key).is_some()
    }

    /// The value under `key`, if the map has it.
    pub fn get(&self, key: &String) -> (r: Option<&V>)
        requires
            self.wf(),
        ensures
            match r {
                Some(v) => self@.dom().contains(key@) && *v == self@[key@],
                None => !self@.dom().contains(key@),
            },
    {
        match self.position(key) {
            Some(i) => {
                proof {
                    lemma_key_index(self.keys@, i as int);
                }
                Some(&self.values[i])
            },
            None => None,
        }
    }

    /// The key and the value at position `i`.
    pub fn entry(&self, i: usize) -> (r: (&String, &V))
        requires
            self.wf(),
            i < self.spec_len(),
        ensures
            r.0@ == self.spec_key(i as int),
            self@.dom().contains(r.0@),
            *r.1 == self@[r.0@],
    {
        proof {
            lemma_key_index(self.keys@, i as int);
        }
        (&self.keys[i], &self.values[i])
    }

    /// Takes `key` out of the map and returns what stood under it.
    pub fn remove(&mut self, key: &String) -> (r: Option<V>)
        requires
            old(self).wf(),
        ensures
            final(self).wf(),
            final(self)@ == old(self)@.remove(key@),
            match r {
                Some(v) => old(self)@.dom().contains(key@) && v == old(self)@[key@],
                None => !old(self)@.dom().contains(key@),
            },
    {
        match self.position(key) {
            Some(i) => {
                proof {
                    lemma_swap_remove_entry(self.keys@, self.values@, i as int);
                }
                self.keys.swap_remove(i);
                let v = self.values.swap_remove(i);
                Some(v)
            },
            None => {
                assert(self@ =~= self@.remove(key@));
                None
            },
        }
    }

    /// Puts `value` under `key` and returns what stood there before.
    pub fn insert(&mut self, key: String, value: V) -> (r: Option<V>)
        requires
            old(self).wf(),
        ensures
            final(self).wf(),
            final(self)@ == old(self)@.insert(key@, value),
            match r {
                Some(v) => old(self)@.dom().contains(key@) && v == old(self)@[key@],
                None => !old(self)@.dom().contains(key@),
            },
    {
        let before = self.remove(&key);
        proof {
            assert(!self@.dom().contains(key@));
            lemma_push_entry(self.keys@, self.values@, key, value);
            assert(old(self)@.remove(key@).insert(key@, value) =~= old(self)@.insert(key@, value));
        }
        self.keys.push(key);
        self.values.push(value);
        before
    }
}

} // verus!
