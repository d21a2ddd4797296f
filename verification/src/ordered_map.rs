//! A map from strings to values that remembers the order in which its keys
//! were first inserted.

use vstd::prelude::*;

verus! {

/// No two pairs of the list share a key.
pub open spec fn keys_distinct<V>(pairs: Seq<(Seq<char>, V)>) -> bool {
    forall|i: int, j: int|
        0 <= i < j < pairs.len() ==> (#[trigger] pairs[i]).0 != (#[trigger] pairs[j]).0
}

/// Some pair of the list has the key.
pub open spec fn has_key<V>(pairs: Seq<(Seq<char>, V)>, key: Seq<char>) -> bool {
    exists|i: int| 0 <= i < pairs.len() && (#[trigger] pairs[i]).0 == key
}

/// The position of a pair with the key, where there is one.
pub open spec fn index_of<V>(pairs: Seq<(Seq<char>, V)>, key: Seq<char>) -> int {
    choose|i: int| 0 <= i < pairs.len() && (#[trigger] pairs[i]).0 == key
}

/// The finite map that a list of pairs stands for.
pub open spec fn pairs_to_map<V>(pairs: Seq<(Seq<char>, V)>) -> Map<Seq<char>, V> {
    Map::new(|k: Seq<char>| has_key(pairs, k), |k: Seq<char>| pairs[index_of(pairs, k)].1)
}

/// What inserting does to the list: an existing key keeps its place and gets
/// the new value, a new key goes to the end.
pub open spec fn pairs_insert<V>(pairs: Seq<(Seq<char>, V)>, key: Seq<char>, value: V) -> Seq<
    (Seq<char>, V),
> {
    if has_key(pairs, key) {
        pairs.update(index_of(pairs, key), (key, value))
    } else {
        pairs.push((key, value))
    }
}

/// In a list with distinct keys the pair at a position is found by its key.
pub proof fn lemma_index_of_key<V>(pairs: Seq<(Seq<char>, V)>, i: int)
    requires
        keys_distinct(pairs),
        0 <= i < pairs.len(),
    ensures
        has_key(pairs, pairs[i].0),
        index_of(pairs, pairs[i].0) == i,
        pairs_to_map(pairs).contains_key(pairs[i].0),
        pairs_to_map(pairs)[pairs[i].0] == pairs[i].1,
{
    let k = pairs[i].0;
    assert(has_key(pairs, k));
    let j = index_of(pairs, k);
    assert(0 <= j < pairs.len() && pairs[j].0 == k);
    if j < i {
        assert(pairs[j].0 != pairs[i].0);
    } else if i < j {
        assert(pairs[i].0 != pairs[j].0);
    }
}

/// Inserting keeps the keys distinct and inserts into the map.
pub proof fn lemma_pairs_insert<V>(pairs: Seq<(Seq<char>, V)>, key: Seq<char>, value: V)
    requires
        keys_distinct(pairs),
    ensures
        keys_distinct(pairs_insert(pairs, key, value)),
        pairs_to_map(pairs_insert(pairs, key, value)) == pairs_to_map(pairs).insert(key, value),
{
    let after = pairs_insert(pairs, key, value);
    if has_key(pairs, key) {
        let p = index_of(pairs, key);
        assert(0 <= p < pairs.len() && pairs[p].0 == key);
        assert forall|i: int, j: int| 0 <= i < j < after.len() implies (#[trigger] after[i]).0 != (
        #[trigger] after[j]).0 by {
            assert(after[i].0 == pairs[i].0);
            assert(after[j].0 == pairs[j].0);
        }
        assert forall|k: Seq<char>| has_key(after, k) == has_key(pairs, k) by {
            if has_key(after, k) {
                let i = index_of(after, k);
                assert(pairs[i].0 == k);
            }
            if has_key(pairs, k) {
                let i = index_of(pairs, k);
                assert(after[i].0 == k);
            }
        }
        assert forall|k: Seq<char>| has_key(after, k) implies #[trigger] pairs_to_map(after)[k]
            == pairs_to_map(pairs).insert(key, value)[k] by {
            let i = index_of(after, k);
            lemma_index_of_key(after, i);
            if k != key {
                assert(i != p);
                assert(pairs[i].0 == k);
                lemma_index_of_key(pairs, i);
            }
        }
        assert(pairs_to_map(after) =~= pairs_to_map(pairs).insert(key, value));
    } else {
        let n = pairs.len() as int;
        assert forall|i: int, j: int| 0 <= i < j < after.len() implies (#[trigger] after[i]).0 != (
        #[trigger] after[j]).0 by {
            if j == n {
                assert(after[i] == pairs[i]);
            } else {
                assert(after[i] == pairs[i]);
                assert(after[j] == pairs[j]);
            }
        }
        assert(after[n].0 == key);
        assert forall|k: Seq<char>| has_key(after, k) == (k == key || has_key(pairs, k)) by {
            if has_key(after, k) {
                let i = index_of(after, k);
                if i < n {
                    assert(pairs[i].0 == k);
                }
            }
            if has_key(pairs, k) {
                let i = index_of(pairs, k);
                assert(after[i].0 == k);
            }
        }
        assert forall|k: Seq<char>| has_key(after, k) implies #[trigger] pairs_to_map(after)[k]
            == pairs_to_map(pairs).insert(key, value)[k] by {
            let i = index_of(after, k);
            lemma_index_of_key(after, i);
            if k != key {
                assert(i < n);
                assert(pairs[i].0 == k);
                lemma_index_of_key(pairs, i);
            } else {
                lemma_index_of_key(after, n);
            }
        }
        assert(pairs_to_map(after) =~= pairs_to_map(pairs).insert(key, value));
    }
}

/// The map of a list with distinct keys has as many keys as the list has pairs.
pub proof fn lemma_pairs_map_len<V>(pairs: Seq<(Seq<char>, V)>)
    requires
        keys_distinct(pairs),
    ensures
        pairs_to_map(pairs).dom().finite(),
        pairs_to_map(pairs).dom().len() == pairs.len(),
    decreases pairs.len(),
{
    if pairs.len() == 0 {
        assert(pairs_to_map(pairs).dom() =~= Set::<Seq<char>>::empty());
    } else {
        let front = pairs.drop_last();
        let last = pairs.last();
        assert forall|i: int, j: int| 0 <= i < j < front.len() implies (#[trigger] front[i]).0 != (
        #[trigger] front[j]).0 by {
            assert(front[i] == pairs[i]);
            assert(front[j] == pairs[j]);
        }
        lemma_pairs_map_len(front);
        if has_key(front, last.0) {
            let i = index_of(front, last.0);
            assert(front[i] == pairs[i]);
            assert(pairs[i].0 != pairs[pairs.len() - 1].0);
        }
        assert(pairs_insert(front, last.0, last.1) =~= pairs);
        lemma_pairs_insert(front, last.0, last.1);
        assert(pairs_to_map(pairs).dom() =~= pairs_to_map(front).dom().insert(last.0));
        assert(!pairs_to_map(front).dom().contains(last.0));
    }
}

/// In a list with distinct keys no pair before a position has that position's key.
pub proof fn lemma_prefix_lacks_key<V>(pairs: Seq<(Seq<char>, V)>, i: int)
    requires
        keys_distinct(pairs),
        0 <= i < pairs.len(),
    ensures
        keys_distinct(pairs.take(i)),
        !has_key(pairs.take(i), pairs[i].0),
        pairs_insert(pairs.take(i), pairs[i].0, pairs[i].1) == pairs.take(i + 1),
{
    let front = pairs.take(i);
    assert forall|a: int, b: int| 0 <= a < b < front.len() implies (#[trigger] front[a]).0 != (
    #[trigger] front[b]).0 by {
        assert(front[a] == pairs[a]);
        assert(front[b] == pairs[b]);
    }
    if has_key(front, pairs[i].0) {
        let j = index_of(front, pairs[i].0);
        assert(front[j] == pairs[j]);
        assert(pairs[j].0 != pairs[i].0);
    }
    assert(front.push(pairs[i]) =~= pairs.take(i + 1));
}

/// What merging does to the list: the pairs of `extra` are inserted one by
/// one, oldest first.
pub open spec fn pairs_merge<V>(base: Seq<(Seq<char>, V)>, extra: Seq<(Seq<char>, V)>) -> Seq<
    (Seq<char>, V),
>
    decreases extra.len(),
{
    if extra.len() == 0 {
        base
    } else {
        pairs_insert(pairs_merge(base, extra.drop_last()), extra.last().0, extra.last().1)
    }
}

/// Merging keeps the keys distinct, and the merged map is the union of the
/// two maps in which, for a key of both, the value of `extra` stands.
pub proof fn lemma_pairs_merge<V>(base: Seq<(Seq<char>, V)>, extra: Seq<(Seq<char>, V)>)
    requires
        keys_distinct(base),
        keys_distinct(extra),
    ensures
        keys_distinct(pairs_merge(base, extra)),
        pairs_to_map(pairs_merge(base, extra)) == pairs_to_map(base).union_prefer_right(
            pairs_to_map(extra),
        ),
    decreases extra.len(),
{
    if extra.len() == 0 {
        assert(pairs_to_map(extra) =~= Map::<Seq<char>, V>::empty());
        assert(pairs_to_map(base) =~= pairs_to_map(base).union_prefer_right(pairs_to_map(extra)));
    } else {
        let n = extra.len() - 1;
        let front = extra.drop_last();
        let last = extra.last();
        assert(front =~= extra.take(n));
        lemma_prefix_lacks_key(extra, n);
        assert(extra.take(n + 1) =~= extra);
        lemma_pairs_merge(base, front);
        lemma_pairs_insert(front, last.0, last.1);
        lemma_pairs_insert(pairs_merge(base, front), last.0, last.1);
        assert(pairs_to_map(base).union_prefer_right(pairs_to_map(front)).insert(last.0, last.1)
            =~= pairs_to_map(base).union_prefer_right(pairs_to_map(front).insert(last.0, last.1)));
    }
}

/// Merging into the empty list gives the list merged in.
pub proof fn lemma_pairs_merge_into_empty<V>(extra: Seq<(Seq<char>, V)>)
    requires
        keys_distinct(extra),
    ensures
        pairs_merge(Seq::<(Seq<char>, V)>::empty(), extra) == extra,
    decreases extra.len(),
{
    if extra.len() == 0 {
        assert(extra =~= Seq::<(Seq<char>, V)>::empty());
    } else {
        let n = extra.len() - 1;
        assert(extra.drop_last() =~= extra.take(n));
        lemma_prefix_lacks_key(extra, n);
        lemma_pairs_merge_into_empty(extra.drop_last());
        assert(extra.take(n + 1) =~= extra);
    }
}

/// After an insertion the list has exactly one pair with the inserted key,
/// and that pair holds the inserted value; every other pair is as it was.
pub proof fn lemma_insert_once<V>(pairs: Seq<(Seq<char>, V)>, key: Seq<char>, value: V)
    requires
        keys_distinct(pairs),
    ensures
        has_key(pairs_insert(pairs, key, value), key),
        pairs_insert(pairs, key, value)[index_of(pairs_insert(pairs, key, value), key)] == (
            key,
            value,
        ),
        forall|j: int|
            0 <= j < pairs_insert(pairs, key, value).len() && (#[trigger] pairs_insert(
                pairs,
                key,
                value,
            )[j]).0 == key ==> j == index_of(pairs_insert(pairs, key, value), key),
        pairs_insert(pairs, key, value).len() == if has_key(pairs, key) {
            pairs.len()
        } else {
            pairs.len() + 1
        },
        forall|j: int|
            0 <= j < pairs.len() && (#[trigger] pairs[j]).0 != key ==> pairs_insert(
                pairs,
                key,
                value,
            )[j] == pairs[j],
{
    let after = pairs_insert(pairs, key, value);
    lemma_pairs_insert(pairs, key, value);
    if has_key(pairs, key) {
        let p = index_of(pairs, key);
        assert(after[p] == (key, value));
        lemma_index_of_key(after, p);
    } else {
        let n = pairs.len() as int;
        assert(after[n] == (key, value));
        lemma_index_of_key(after, n);
    }
    let at = index_of(after, key);
    assert forall|j: int| 0 <= j < after.len() && (#[trigger] after[j]).0 == key implies j
        == at by {
        lemma_index_of_key(after, j);
    }
}

/// After an insertion every pair of the list is the inserted one or stands
/// where it stood before.
pub proof fn lemma_insert_keeps<V>(pairs: Seq<(Seq<char>, V)>, key: Seq<char>, value: V, j: int)
    requires
        0 <= j < pairs_insert(pairs, key, value).len(),
    ensures
        pairs_insert(pairs, key, value)[j] == (key, value) || (j < pairs.len() && pairs_insert(
            pairs,
            key,
            value,
        )[j] == pairs[j]),
{
    if has_key(pairs, key) {
        let p = index_of(pairs, key);
        assert(0 <= p < pairs.len());
    }
}

/// Inserting twice under one key leaves what the second insertion alone
/// would have left.
pub proof fn lemma_insert_twice<V>(pairs: Seq<(Seq<char>, V)>, key: Seq<char>, first: V, second: V)
    requires
        keys_distinct(pairs),
    ensures
        pairs_insert(pairs_insert(pairs, key, first), key, second) == pairs_insert(
            pairs,
            key,
            second,
        ),
{
    let once = pairs_insert(pairs, key, first);
    lemma_insert_once(pairs, key, first);
    let at = index_of(once, key);
    if has_key(pairs, key) {
        let p = index_of(pairs, key);
        assert(once[p].0 == key);
        assert(at == p);
        assert(once.update(at, (key, second)) =~= pairs.update(p, (key, second)));
    } else {
        let n = pairs.len() as int;
        assert(once[n].0 == key);
        assert(at == n);
        assert(once.update(at, (key, second)) =~= pairs.push((key, second)));
    }
}

/// The list with each value replaced by what `f` makes of it.
pub open spec fn pairs_project<V, W>(pairs: Seq<(Seq<char>, V)>, f: spec_fn(V) -> W) -> Seq<
    (Seq<char>, W),
> {
    pairs.map_values(|p: (Seq<char>, V)| (p.0, f(p.1)))
}

/// Replacing the values keeps the keys distinct, and it makes no difference
/// whether a pair is inserted before or after.
pub proof fn lemma_project_insert<V, W>(
    pairs: Seq<(Seq<char>, V)>,
    f: spec_fn(V) -> W,
    key: Seq<char>,
    value: V,
)
    requires
        keys_distinct(pairs),
    ensures
        keys_distinct(pairs_project(pairs, f)),
        has_key(pairs_project(pairs, f), key) == has_key(pairs, key),
        pairs_project(pairs_insert(pairs, key, value), f) == pairs_insert(
            pairs_project(pairs, f),
            key,
            f(value),
        ),
{
    let shown = pairs_project(pairs, f);
    assert forall|i: int, j: int| 0 <= i < j < shown.len() implies (#[trigger] shown[i]).0 != (
    #[trigger] shown[j]).0 by {
        assert(shown[i].0 == pairs[i].0);
        assert(shown[j].0 == pairs[j].0);
    }
    if has_key(pairs, key) {
        let p = index_of(pairs, key);
        assert(shown[p].0 == key);
        lemma_index_of_key(shown, p);
        assert(pairs_project(pairs.update(p, (key, value)), f) =~= shown.update(p, (key, f(value))));
    } else {
        if has_key(shown, key) {
            let q = index_of(shown, key);
            assert(pairs[q].0 == key);
        }
        assert(pairs_project(pairs.push((key, value)), f) =~= shown.push((key, f(value))));
    }
}

/// A map from strings to values, kept as a list in the order in which the
/// keys were first inserted. No key occurs twice.
#[derive(Debug)]
pub struct OrderedMap<V> {
    entries: Vec<(String, V)>,
}

impl<V> View for OrderedMap<V> {
    type V = Map<Seq<char>, V>;

    open spec fn view(&self) -> Map<Seq<char>, V> {
        pairs_to_map(self.pairs())
    }
}

impl<V> OrderedMap<V> {
    /// The pairs of key and value, oldest key first.
    pub closed spec fn pairs(&self) -> Seq<(Seq<char>, V)> {
        self.entries@.map_values(|e: (String, V)| (e.0@, e.1))
    }

    /// What holds of every map: no key occurs twice.
    #[verifier::type_invariant]
    pub open spec fn distinct(&self) -> bool {
        keys_distinct(self.pairs())
    }

    /// An empty map.
    pub fn new() -> (r: Self)
        ensures
            r.pairs() == Seq::<(Seq<char>, V)>::empty(),
            r@ == Map::<Seq<char>, V>::empty(),
            keys_distinct(r.pairs()),
    {
        let r = OrderedMap { entries: Vec::new() };
        proof {
            assert(r.pairs() =~= Seq::<(Seq<char>, V)>::empty());
            assert(r@ =~= Map::<Seq<char>, V>::empty());
        }
        r
    }

    /// The number of keys. Every map keeps its keys distinct.
    pub fn len(&self) -> (r: usize)
        ensures
            r == self.pairs().len(),
            r == self@.dom().len(),
            keys_distinct(self.pairs()),
    {
        proof {
            use_type_invariant(self);
            lemma_pairs_map_len(self.pairs());
        }
        self.entries.len()
    }

    /// Whether the map has no key.
    pub fn is_empty(&self) -> (r: bool)
        ensures
            r == (self.pairs().len() == 0),
    {
        self.entries.len() == 0
    }

    /// The position of the key in insertion order, if the map has it.
    pub fn position(&self, key: &str) -> (r: Option<usize>)
        ensures
            r is Some == has_key(self.pairs(), key@),
            r is Some == self@.contains_key(key@),
            r matches Some(i) ==> i < self.pairs().len() && i == index_of(self.pairs(), key@)
                && self.pairs()[i as int].0 == key@,
    {
        proof {
            use_type_invariant(self);
        }
        let wanted = key.to_owned();
        let mut i: usize = 0;
        while i < self.entries.len()
            invariant
                i <= self.entries.len(),
                wanted@ == key@,
                keys_distinct(self.pairs()),
                forall|j: int| 0 <= j < i ==> (#[trigger] self.pairs()[j]).0 != key@,
            decreases self.entries.len() - i,
        {
            if self.entries[i].0 == wanted {
                proof {
                    assert(self.pairs()[i as int].0 == key@);
                    lemma_index_of_key(self.pairs(), i as int);
                }
                return Some(i);
            }
            i += 1;
        }
        proof {
            if has_key(self.pairs(), key@) {
                let j = index_of(self.pairs(), key@);
                assert(self.pairs()[j].0 != key@);
            }
        }
        None
    }

    /// Whether the map has the key.
    pub fn contains_key(&self, key: &str) -> (r: bool)
        ensures
            r == self@.contains_key(key@),
    {
        self.position(key).is_some()
    }

    /// The value under the key, if the map has it.
    pub fn get(&self, key: &str) -> (r: Option<&V>)
        ensures
            r == (if self@.contains_key(key@) {
                Some(&self@[key@])
            } else {
                None
            }),
    {
        match self.position(key) {
            Some(i) => {
                proof {
                    use_type_invariant(self);
                    lemma_index_of_key(self.pairs(), i as int);
                }
                Some(&self.entries[i].1)
            },
            None => None,
        }
    }

    /// The key at a position of the insertion order.
    pub fn key_at(&self, i: usize) -> (r: &String)
        requires
            i < self.pairs().len(),
        ensures
            r@ == self.pairs()[i as int].0,
    {
        &self.entries[i].0
    }

    /// The value at a position of the insertion order.
    pub fn value_at(&self, i: usize) -> (r: &V)
        requires
            i < self.pairs().len(),
        ensures
            *r == self.pairs()[i as int].1,
            self@.contains_key(self.pairs()[i as int].0),
            *r == self@[self.pairs()[i as int].0],
    {
        proof {
            use_type_invariant(self);
            lemma_index_of_key(self.pairs(), i as int);
        }
        &self.entries[i].1
    }

    /// Puts the value under the key. A key that the map already has keeps its
    /// place and hands back its former value; a new key goes to the end.
    pub fn insert(&mut self, key: String, value: V) -> (r: Option<V>)
        ensures
            final(self)@ == old(self)@.insert(key@, value),
            final(self).pairs() == pairs_insert(old(self).pairs(), key@, value),
            r == (if old(self)@.contains_key(key@) {
                Some(old(self)@[key@])
            } else {
                None
            }),
            keys_distinct(old(self).pairs()),
            keys_distinct(final(self).pairs()),
    {
        proof {
            use_type_invariant(&*self);
            lemma_pairs_insert(self.pairs(), key@, value);
        }
        let ghost before = self.pairs();
        let found = self.position(key.as_str());
        let mut entries: Vec<(String, V)> = Vec::new();
        core::mem::swap(&mut self.entries, &mut entries);
        assert(self.pairs() =~= Seq::<(Seq<char>, V)>::empty());
        assert(entries@.map_values(|e: (String, V)| (e.0@, e.1)) == before);
        let former = match found {
            Some(i) => {
                proof {
                    lemma_index_of_key(before, i as int);
                }
                let former = entries.remove(i);
                entries.insert(i, (key, value));
                Some(former.1)
            },
            None => {
                entries.push((key, value));
                None
            },
        };
        assert(entries@.map_values(|e: (String, V)| (e.0@, e.1)) =~= pairs_insert(
            before,
            key@,
            value,
        ));
        core::mem::swap(&mut self.entries, &mut entries);
        former
    }
}

} // verus!
