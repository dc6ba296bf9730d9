//! A map from text keys to values that remembers the order in which its keys
//! first came in. No key occurs twice.

use vstd::prelude::*;
use crate::text::same_text;

verus! {

/// The value paired with the first occurrence of `key`, if there is one.
pub open spec fn find_value<T>(pairs: Seq<(Seq<char>, T)>, key: Seq<char>) -> Option<T>
    decreases pairs.len(),
{
    if pairs.len() == 0 {
        None
    } else if pairs[0].0 == key {
        Some(pairs[0].1)
    } else {
        find_value(pairs.drop_first(), key)
    }
}

/// The position of the first occurrence of `key`, or the length if there is none.
pub open spec fn key_position<T>(pairs: Seq<(Seq<char>, T)>, key: Seq<char>) -> int
    decreases pairs.len(),
{
    if pairs.len() == 0 {
        0
    } else if pairs[0].0 == key {
        0
    } else {
        1 + key_position(pairs.drop_first(), key)
    }
}

/// No key occurs at two positions.
pub open spec fn keys_distinct<T>(pairs: Seq<(Seq<char>, T)>) -> bool {
    forall|i: int, j: int| 0 <= i < j < pairs.len() ==> pairs[i].0 != pairs[j].0
}

/// `pairs` with `key` bound to `value`: in place where the key was bound
/// before, at the end where it was not.
pub open spec fn with_binding<T>(pairs: Seq<(Seq<char>, T)>, key: Seq<char>, value: T) -> Seq<
    (Seq<char>, T),
> {
    let at = key_position(pairs, key);
    if at < pairs.len() {
        pairs.update(at, (key, value))
    } else {
        pairs.push((key, value))
    }
}

/// `pairs` without the first binding of `key`.
pub open spec fn without_key<T>(pairs: Seq<(Seq<char>, T)>, key: Seq<char>) -> Seq<(Seq<char>, T)> {
    let at = key_position(pairs, key);
    if at < pairs.len() {
        pairs.remove(at)
    } else {
        pairs
    }
}

/// Where the first occurrence of a key stands, and what stands there.
pub proof fn lemma_key_position<T>(pairs: Seq<(Seq<char>, T)>, key: Seq<char>)
    ensures
        0 <= key_position(pairs, key) <= pairs.len(),
        forall|k: int| 0 <= k < key_position(pairs, key) ==> pairs[k].0 != key,
        key_position(pairs, key) < pairs.len() ==> pairs[key_position(pairs, key)].0 == key
            && find_value(pairs, key) == Some(pairs[key_position(pairs, key)].1),
        key_position(pairs, key) == pairs.len() ==> find_value(pairs, key) is None,
    decreases pairs.len(),
{
    if pairs.len() > 0 && pairs[0].0 != key {
        let rest = pairs.drop_first();
        lemma_key_position(rest, key);
        assert forall|k: int| 0 <= k < key_position(pairs, key) implies pairs[k].0 != key by {
            if k > 0 {
                assert(pairs[k] == rest[k - 1]);
            }
        }
    }
}

/// A position that holds `key`, with no earlier one that does, is the key's
/// position.
pub proof fn lemma_first_occurrence<T>(pairs: Seq<(Seq<char>, T)>, key: Seq<char>, at: int)
    requires
        0 <= at <= pairs.len(),
        forall|k: int| 0 <= k < at ==> pairs[k].0 != key,
        at < pairs.len() ==> pairs[at].0 == key,
    ensures
        key_position(pairs, key) == at,
{
    lemma_key_position(pairs, key);
}

/// Among distinct keys, a key is bound to what stands beside it.
pub proof fn lemma_lookup_finds_pair<T>(pairs: Seq<(Seq<char>, T)>, at: int)
    requires
        keys_distinct(pairs),
        0 <= at < pairs.len(),
    ensures
        find_value(pairs, pairs[at].0) == Some(pairs[at].1),
{
    lemma_key_position(pairs, pairs[at].0);
}

/// A map from text keys to values of `V`, in the order of first insertion.
#[derive(Debug)]
pub struct StringMap<V> {
    entries: Vec<(String, V)>,
}

impl<V> StringMap<V> {
    /// The bindings, in order, each key as a sequence of characters.
    pub closed spec fn pairs(&self) -> Seq<(Seq<char>, V)> {
        Seq::new(self.entries@.len(), |i: int| (self.entries@[i].0@, self.entries@[i].1))
    }

    #[verifier::type_invariant]
    spec fn distinct(&self) -> bool {
        keys_distinct(self.pairs())
    }

    /// The value bound to `key`, if any.
    pub open spec fn lookup(&self, key: Seq<char>) -> Option<V> {
        find_value(self.pairs(), key)
    }

    /// The empty map.
    pub fn new() -> (m: Self)
        ensures
            m.pairs() == Seq::<(Seq<char>, V)>::empty(),
    {
        let m = StringMap { entries: Vec::new() };
        assert(m.pairs() =~= Seq::<(Seq<char>, V)>::empty());
        m
    }

    /// The number of bindings.
    pub fn len(&self) -> (n: usize)
        ensures
            n == self.pairs().len(),
            keys_distinct(self.pairs()),
    {
        proof {
            use_type_invariant(self);
        }
        self.entries.len()
    }

    /// The key of the binding at position `i`.
    pub fn key_at(&self, i: usize) -> (k: &String)
        requires
            i < self.pairs().len(),
        ensures
            k@ == self.pairs()[i as int].0,
    {
        &self.entries[i].0
    }

    /// The value of the binding at position `i`.
    pub fn value_at(&self, i: usize) -> (v: &V)
        requires
            i < self.pairs().len(),
        ensures
            *v == self.pairs()[i as int].1,
    {
        &self.entries[i].1
    }

    fn position(&self, key: &str) -> (at: usize)
        ensures
            at == key_position(self.pairs(), key@),
            at <= self.entries@.len(),
            self.entries@.len() == self.pairs().len(),
    {
        let mut i: usize = 0;
        while i < self.entries.len()
            invariant
                i <= self.entries@.len(),
                forall|k: int| 0 <= k < i ==> self.pairs()[k].0 != key@,
            decreases self.entries@.len() - i,
        {
            if same_text(self.entries[i].0.as_str(), key) {
                proof {
                    lemma_first_occurrence(self.pairs(), key@, i as int);
                }
                return i;
            }
            i += 1;
        }
        proof {
            lemma_first_occurrence(self.pairs(), key@, i as int);
        }
        i
    }

    /// The value bound to `key`, if any.
    pub fn get(&self, key: &str) -> (r: Option<&V>)
        ensures
            match r {
                Some(v) => self.lookup(key@) == Some(*v),
                None => self.lookup(key@) is None,
            },
    {
        let at = self.position(key);
        proof {
            lemma_key_position(self.pairs(), key@);
        }
        if at < self.entries.len() {
            Some(&self.entries[at].1)
        } else {
            None
        }
    }

    /// Whether `key` is bound.
    pub fn contains_key(&self, key: &str) -> (r: bool)
        ensures
            r == self.lookup(key@).is_some(),
    {
        self.get(key).is_some()
    }

    /// Binds `key` to `value` and returns what it was bound to before.
    pub fn insert(&mut self, key: String, value: V) -> (previous: Option<V>)
        ensures
            final(self).pairs() == with_binding(old(self).pairs(), key@, value),
            previous == old(self).lookup(key@),
            final(self).lookup(key@) == Some(value),
            forall|other: Seq<char>|
                other != key@ ==> final(self).lookup(other) == old(self).lookup(other),
    {
        proof {
            use_type_invariant(&*self);
            lemma_key_position(self.pairs(), key@);
            lemma_binding_lookup(self.pairs(), key@, value);
        }
        let at = self.position(key.as_str());
        let ghost before = self.pairs();
        let mut entries: Vec<(String, V)> = Vec::new();
        std::mem::swap(&mut entries, &mut self.entries);
        let previous = if at < entries.len() {
            let old_entry = entries.remove(at);
            entries.insert(at, (key, value));
            Some(old_entry.1)
        } else {
            entries.push((key, value));
            None
        };
        proof {
            let after = Seq::new(entries@.len(), |i: int| (entries@[i].0@, entries@[i].1));
            assert(after =~= with_binding(before, key@, value));
            lemma_binding_distinct(before, key@, value);
        }
        self.entries = entries;
        previous
    }

    /// Removes the binding of `key` and returns its value, if it was bound.
    pub fn remove(&mut self, key: &str) -> (previous: Option<V>)
        ensures
            final(self).pairs() == without_key(old(self).pairs(), key@),
            previous == old(self).lookup(key@),
            final(self).lookup(key@) is None,
            forall|other: Seq<char>|
                other != key@ ==> final(self).lookup(other) == old(self).lookup(other),
    {
        proof {
            use_type_invariant(&*self);
            lemma_key_position(self.pairs(), key@);
            lemma_removal_lookup(self.pairs(), key@);
        }
        let at = self.position(key);
        let ghost before = self.pairs();
        let mut entries: Vec<(String, V)> = Vec::new();
        std::mem::swap(&mut entries, &mut self.entries);
        let previous = if at < entries.len() {
            let old_entry = entries.remove(at);
            Some(old_entry.1)
        } else {
            None
        };
        proof {
            let after = Seq::new(entries@.len(), |i: int| (entries@[i].0@, entries@[i].1));
            assert(after =~= without_key(before, key@));
        }
        self.entries = entries;
        previous
    }
}

impl<V: Clone> Clone for StringMap<V> {
    /// A map with the same keys in the same order, each bound to a clone of
    /// its value.
    fn clone(&self) -> (r: Self)
        ensures
            r.pairs().len() == self.pairs().len(),
            forall|i: int|
                0 <= i < self.pairs().len() ==> r.pairs()[i].0 == self.pairs()[i].0 && cloned(
                    self.pairs()[i].1,
                    #[trigger] r.pairs()[i].1,
                ),
    {
        proof {
            use_type_invariant(self);
        }
        let mut entries: Vec<(String, V)> = Vec::new();
        let mut i: usize = 0;
        while i < self.entries.len()
            invariant
                i <= self.entries@.len(),
                entries@.len() == i,
                keys_distinct(self.pairs()),
                forall|k: int|
                    #![trigger entries@[k]]
                    0 <= k < i ==> entries@[k].0@ == self.entries@[k].0@ && cloned(
                        self.entries@[k].1,
                        entries@[k].1,
                    ),
            decreases self.entries@.len() - i,
        {
            let key = self.entries[i].0.clone();
            let value = self.entries[i].1.clone();
            entries.push((key, value));
            i += 1;
        }
        proof {
            let copied = Seq::new(entries@.len(), |k: int| (entries@[k].0@, entries@[k].1));
            assert forall|a: int, b: int| 0 <= a < b < copied.len() implies copied[a].0
                != copied[b].0 by {
                assert(copied[a].0 == self.pairs()[a].0);
                assert(copied[b].0 == self.pairs()[b].0);
            }
        }
        StringMap { entries }
    }
}

/// The bindings with each value replaced by its deep view.
pub open spec fn deep_pairs<V: DeepView>(pairs: Seq<(Seq<char>, V)>) -> Seq<(Seq<char>, V::V)> {
    Seq::new(pairs.len(), |i: int| (pairs[i].0, pairs[i].1.deep_view()))
}

impl<V: DeepView> DeepView for StringMap<V> {
    type V = Seq<(Seq<char>, V::V)>;

    open spec fn deep_view(&self) -> Seq<(Seq<char>, V::V)> {
        deep_pairs(self.pairs())
    }
}

/// Looking a key up among the deep views gives the deep view of what the
/// key is bound to.
pub proof fn lemma_deep_lookup<V: DeepView>(pairs: Seq<(Seq<char>, V)>, key: Seq<char>)
    ensures
        find_value(deep_pairs(pairs), key) == match find_value(pairs, key) {
            Some(v) => Some(v.deep_view()),
            None => None,
        },
    decreases pairs.len(),
{
    if pairs.len() > 0 {
        assert(deep_pairs(pairs).drop_first() =~= deep_pairs(pairs.drop_first()));
        lemma_deep_lookup(pairs.drop_first(), key);
    }
}

/// Binding a key keeps the keys distinct.
pub proof fn lemma_binding_distinct<T>(pairs: Seq<(Seq<char>, T)>, key: Seq<char>, value: T)
    requires
        keys_distinct(pairs),
    ensures
        keys_distinct(with_binding(pairs, key, value)),
{
    lemma_key_position(pairs, key);
}

/// After binding a key, it is bound to the new value and every other key to
/// what it was bound to before.
pub proof fn lemma_binding_lookup<T>(pairs: Seq<(Seq<char>, T)>, key: Seq<char>, value: T)
    ensures
        find_value(with_binding(pairs, key, value), key) == Some(value),
        forall|other: Seq<char>|
            other != key ==> find_value(with_binding(pairs, key, value), other) == find_value(
                pairs,
                other,
            ),
{
    let after = with_binding(pairs, key, value);
    lemma_key_position(pairs, key);
    lemma_first_occurrence(after, key, key_position(pairs, key));
    lemma_key_position(after, key);
    assert forall|other: Seq<char>| other != key implies find_value(after, other) == find_value(
        pairs,
        other,
    ) by {
        lemma_key_position(pairs, other);
        let at = key_position(pairs, other);
        let moved = if at == pairs.len() {
            after.len() as int
        } else {
            at
        };
        lemma_first_occurrence(after, other, moved);
        lemma_key_position(after, other);
    }
}

/// After removing a key from distinct keys, it is unbound and every other
/// key is bound to what it was bound to before.
pub proof fn lemma_removal_lookup<T>(pairs: Seq<(Seq<char>, T)>, key: Seq<char>)
    requires
        keys_distinct(pairs),
    ensures
        keys_distinct(without_key(pairs, key)),
        find_value(without_key(pairs, key), key) is None,
        forall|other: Seq<char>|
            other != key ==> find_value(without_key(pairs, key), other) == find_value(
                pairs,
                other,
            ),
{
    let after = without_key(pairs, key);
    lemma_key_position(pairs, key);
    let gone = key_position(pairs, key);
    lemma_first_occurrence(after, key, after.len() as int);
    lemma_key_position(after, key);
    assert forall|other: Seq<char>| other != key implies find_value(after, other) == find_value(
        pairs,
        other,
    ) by {
        lemma_key_position(pairs, other);
        let at = key_position(pairs, other);
        let moved = if at < gone || at == pairs.len() && gone == pairs.len() {
            at
        } else {
            at - 1
        };
        lemma_first_occurrence(after, other, moved);
        lemma_key_position(after, other);
    }
}

} // verus!
