//! An insertion-ordered table keyed by text.
//!
//! The table stands where a hash map keyed by `String` would: a key occurs
//! at most once, and a lookup finds the value stored under it. Entries keep
//! the order in which their keys first came in.

use vstd::prelude::*;

verus! {

/// One key with the value stored under it.
#[derive(Debug)]
pub struct Entry<V> {
    pub key: String,
    pub value: V,
}

/// A table from text keys to values of type `V`.
#[derive(Debug)]
pub struct StringTable<V> {
    entries: Vec<Entry<V>>,
}

/// Free-form metadata: text values under text keys.
pub type Metadata = StringTable<String>;

/// The position of `key` among `entries`, or `-1` where it does not occur.
pub open spec fn index_of<V>(entries: Seq<(Seq<char>, V)>, key: Seq<char>) -> int
    decreases entries.len(),
{
    if entries.len() == 0 {
        -1
    } else if entries.last().0 == key && index_of(entries.drop_last(), key) < 0 {
        entries.len() - 1
    } else {
        index_of(entries.drop_last(), key)
    }
}

/// Whether some entry carries `key`.
pub open spec fn has_key<V>(entries: Seq<(Seq<char>, V)>, key: Seq<char>) -> bool {
    exists|i: int| 0 <= i < entries.len() && (#[trigger] entries[i]).0 == key
}

/// Whether no key occurs twice.
pub open spec fn distinct_keys<V>(entries: Seq<(Seq<char>, V)>) -> bool {
    forall|i: int, j: int|
        0 <= i < entries.len() && 0 <= j < entries.len() && i != j ==> (#[trigger] entries[i]).0
            != (#[trigger] entries[j]).0
}

/// The value stored under `key`, if any.
pub open spec fn lookup<V>(entries: Seq<(Seq<char>, V)>, key: Seq<char>) -> Option<V> {
    if has_key(entries, key) {
        Some(entries[index_of(entries, key)].1)
    } else {
        None
    }
}

/// `index_of` gives the first position of the key, and `-1` exactly when the key is absent.
pub proof fn lemma_index_of<V>(entries: Seq<(Seq<char>, V)>, key: Seq<char>)
    ensures
        -1 <= index_of(entries, key) < entries.len(),
        index_of(entries, key) >= 0 <==> has_key(entries, key),
        index_of(entries, key) >= 0 ==> entries[index_of(entries, key)].0 == key,
        forall|j: int| 0 <= j < index_of(entries, key) ==> (#[trigger] entries[j]).0 != key,
    decreases entries.len(),
{
    if entries.len() > 0 {
        let front = entries.drop_last();
        lemma_index_of(front, key);
        assert(forall|j: int| 0 <= j < front.len() ==> front[j] == entries[j]);
        if has_key(entries, key) {
            let i = choose|i: int| 0 <= i < entries.len() && (#[trigger] entries[i]).0 == key;
            if i < front.len() {
                assert(front[i].0 == key);
            }
        }
        if has_key(front, key) {
            let i = choose|i: int| 0 <= i < front.len() && (#[trigger] front[i]).0 == key;
            assert(entries[i].0 == key);
        }
    }
}

/// The entries after `value` has been stored under `key`: in place of the
/// old value where the key was present, at the end otherwise.
pub open spec fn put<V>(entries: Seq<(Seq<char>, V)>, key: Seq<char>, value: V) -> Seq<
    (Seq<char>, V),
> {
    if index_of(entries, key) >= 0 {
        entries.update(index_of(entries, key), (key, value))
    } else {
        entries.push((key, value))
    }
}

/// The entries without the one under `key`.
pub open spec fn without<V>(entries: Seq<(Seq<char>, V)>, key: Seq<char>) -> Seq<(Seq<char>, V)> {
    if index_of(entries, key) >= 0 {
        entries.remove(index_of(entries, key))
    } else {
        entries
    }
}

/// The entries of `base` after each entry of `extra` has been stored in it, in order.
pub open spec fn merged<V>(base: Seq<(Seq<char>, V)>, extra: Seq<(Seq<char>, V)>) -> Seq<
    (Seq<char>, V),
>
    decreases extra.len(),
{
    if extra.len() == 0 {
        base
    } else {
        put(merged(base, extra.drop_last()), extra.last().0, extra.last().1)
    }
}

/// The same keys in the same order, each value seen through `f`.
pub open spec fn map_values_of<V, W>(entries: Seq<(Seq<char>, V)>, f: spec_fn(V) -> W) -> Seq<
    (Seq<char>, W),
> {
    Seq::new(entries.len(), |i: int| (entries[i].0, f(entries[i].1)))
}

/// The function that takes a text to its characters.
pub open spec fn text_of() -> spec_fn(String) -> Seq<char> {
    |s: String| s@
}

/// Metadata with each value taken by its characters.
pub open spec fn text_entries(entries: Seq<(Seq<char>, String)>) -> Seq<(Seq<char>, Seq<char>)> {
    map_values_of(entries, text_of())
}

/// Where a key stands depends on the keys alone.
pub proof fn lemma_index_of_keys<V, W>(
    a: Seq<(Seq<char>, V)>,
    b: Seq<(Seq<char>, W)>,
    key: Seq<char>,
)
    requires
        a.len() == b.len(),
        forall|i: int| 0 <= i < a.len() ==> (#[trigger] a[i]).0 == (#[trigger] b[i]).0,
    ensures
        index_of(a, key) == index_of(b, key),
        has_key(a, key) == has_key(b, key),
    decreases a.len(),
{
    if a.len() > 0 {
        let fa = a.drop_last();
        let fb = b.drop_last();
        assert forall|i: int| 0 <= i < fa.len() implies (#[trigger] fa[i]).0 == (#[trigger] fb[i]).0 by {
            assert(fa[i] == a[i]);
            assert(fb[i] == b[i]);
        }
        lemma_index_of_keys(fa, fb, key);
        assert(a.last().0 == b.last().0);
    }
    lemma_index_of(a, key);
    lemma_index_of(b, key);
}

/// Looking through `f` commutes with finding, storing and removing.
pub proof fn lemma_map_values_of<V, W>(
    entries: Seq<(Seq<char>, V)>,
    f: spec_fn(V) -> W,
    key: Seq<char>,
    value: V,
)
    ensures
        index_of(map_values_of(entries, f), key) == index_of(entries, key),
        has_key(map_values_of(entries, f), key) == has_key(entries, key),
        distinct_keys(map_values_of(entries, f)) == distinct_keys(entries),
        map_values_of(put(entries, key, value), f) == put(map_values_of(entries, f), key, f(value)),
        map_values_of(without(entries, key), f) == without(map_values_of(entries, f), key),
        lookup(map_values_of(entries, f), key) == match lookup(entries, key) {
            Some(v) => Some(f(v)),
            None => None,
        },
{
    let mapped = map_values_of(entries, f);
    lemma_index_of_keys(entries, mapped, key);
    lemma_index_of(entries, key);
    assert(map_values_of(put(entries, key, value), f) =~= put(mapped, key, f(value)));
    assert(map_values_of(without(entries, key), f) =~= without(mapped, key));
    if distinct_keys(entries) {
        assert forall|i: int, j: int|
            0 <= i < mapped.len() && 0 <= j < mapped.len() && i != j implies (#[trigger] mapped[i]).0
            != (#[trigger] mapped[j]).0 by {
            assert(entries[i].0 == mapped[i].0);
            assert(entries[j].0 == mapped[j].0);
        }
    }
    if distinct_keys(mapped) {
        assert forall|i: int, j: int|
            0 <= i < entries.len() && 0 <= j < entries.len() && i != j implies (
        #[trigger] entries[i]).0 != (#[trigger] entries[j]).0 by {
            assert(entries[i].0 == mapped[i].0);
            assert(entries[j].0 == mapped[j].0);
        }
    }
}

/// Looking through `f` commutes with merging.
pub proof fn lemma_map_values_of_merged<V, W>(
    base: Seq<(Seq<char>, V)>,
    extra: Seq<(Seq<char>, V)>,
    f: spec_fn(V) -> W,
)
    ensures
        map_values_of(merged(base, extra), f) == merged(
            map_values_of(base, f),
            map_values_of(extra, f),
        ),
    decreases extra.len(),
{
    let mapped = map_values_of(extra, f);
    if extra.len() > 0 {
        lemma_map_values_of_merged(base, extra.drop_last(), f);
        lemma_map_values_of(
            merged(base, extra.drop_last()),
            f,
            extra.last().0,
            extra.last().1,
        );
        assert(mapped.drop_last() =~= map_values_of(extra.drop_last(), f));
        assert(mapped.last() == (extra.last().0, f(extra.last().1)));
    }
}

/// In a table without repeated keys, the entry at position `i` is the one found under its key.
pub proof fn lemma_index_of_position<V>(entries: Seq<(Seq<char>, V)>, i: int)
    requires
        distinct_keys(entries),
        0 <= i < entries.len(),
    ensures
        index_of(entries, entries[i].0) == i,
        lookup(entries, entries[i].0) == Some(entries[i].1),
{
    lemma_index_of(entries, entries[i].0);
    let k = index_of(entries, entries[i].0);
    assert(has_key(entries, entries[i].0));
    if k != i {
        assert(entries[k].0 == entries[i].0);
    }
}

/// The keys, by their characters, with the values stored under them.
pub open spec fn entries_view<V>(entries: Seq<Entry<V>>) -> Seq<(Seq<char>, V)> {
    Seq::new(entries.len(), |i: int| (entries[i].key@, entries[i].value))
}

impl<V> View for StringTable<V> {
    type V = Seq<(Seq<char>, V)>;

    closed spec fn view(&self) -> Seq<(Seq<char>, V)> {
        entries_view(self.entries@)
    }
}

impl<V> StringTable<V> {
    #[verifier::type_invariant]
    spec fn inv(&self) -> bool {
        distinct_keys(self@)
    }

    /// The value stored under `key`, if any.
    pub open spec fn value_of(&self, key: Seq<char>) -> Option<V> {
        lookup(self@, key)
    }

    /// Whether `key` is present.
    pub open spec fn contains(&self, key: Seq<char>) -> bool {
        has_key(self@, key)
    }

    /// An empty table.
    pub fn new() -> (r: Self)
        ensures
            r@ == Seq::<(Seq<char>, V)>::empty(),
    {
        let r = StringTable { entries: Vec::new() };
        assert(r@ =~= Seq::<(Seq<char>, V)>::empty());
        r
    }

    /// The number of entries.
    pub fn len(&self) -> (r: usize)
        ensures
            r == self@.len(),
            distinct_keys(self@),
    {
        proof {
            use_type_invariant(self);
        }
        self.entries.len()
    }

    /// Tells the caller that no key occurs twice. Nothing is done at run time.
    pub fn keys_are_distinct(&self)
        ensures
            distinct_keys(self@),
    {
        proof {
            use_type_invariant(self);
        }
    }

    /// Whether the table holds no entry.
    pub fn is_empty(&self) -> (r: bool)
        ensures
            r == (self@.len() == 0),
    {
        self.entries.len() == 0
    }

    /// The position of `key`, if it is present.
    pub fn position(&self, key: &str) -> (r: Option<usize>)
        ensures
            distinct_keys(self@),
            match r {
                Some(i) => index_of(self@, key@) == i && i < self@.len() && self@[i as int].0
                    == key@,
                None => index_of(self@, key@) == -1 && !has_key(self@, key@),
            },
    {
        proof {
            use_type_invariant(self);
            lemma_index_of(self@, key@);
        }
        let mut i: usize = 0;
        while i < self.entries.len()
            invariant
                i <= self.entries.len(),
                self@.len() == self.entries.len(),
                distinct_keys(self@),
                forall|j: int| 0 <= j < i ==> (#[trigger] self@[j]).0 != key@,
            decreases self.entries.len() - i,
        {
            if *self.entries[i].key.as_str() == *key {
                proof {
                    lemma_index_of(self@, key@);
                    assert(self@[i as int].0 == key@);
                    assert(has_key(self@, key@));
                    let k = index_of(self@, key@);
                    if k < i {
                        assert(self@[k].0 == key@);
                    }
                }
                return Some(i);
            }
            i += 1;
        }
        proof {
            lemma_index_of(self@, key@);
            if has_key(self@, key@) {
                let k = choose|k: int| 0 <= k < self@.len() && (#[trigger] self@[k]).0 == key@;
                assert(false);
            }
        }
        None
    }

    /// Whether `key` is present.
    pub fn contains_key(&self, key: &str) -> (r: bool)
        ensures
            r == self.contains(key@),
    {
        self.position(key).is_some()
    }

    /// The value stored under `key`, if any.
    pub fn get(&self, key: &str) -> (r: Option<&V>)
        ensures
            match r {
                Some(v) => self.value_of(key@) == Some(*v),
                None => self.value_of(key@).is_none(),
            },
    {
        match self.position(key) {
            Some(i) => Some(&self.entries[i].value),
            None => None,
        }
    }

    /// The key of the entry at position `i`.
    pub fn key_at(&self, i: usize) -> (r: &String)
        requires
            i < self@.len(),
        ensures
            r@ == self@[i as int].0,
    {
        &self.entries[i].key
    }

    /// The value of the entry at position `i`.
    pub fn value_at(&self, i: usize) -> (r: &V)
        requires
            i < self@.len(),
        ensures
            *r == self@[i as int].1,
    {
        &self.entries[i].value
    }

    /// Stores `value` under `key`. Where the key was present its value is
    /// replaced and the old one handed back; otherwise a new entry is added
    /// at the end.
    pub fn insert(&mut self, key: String, value: V) -> (r: Option<V>)
        ensures
            distinct_keys(final(self)@),
            r == lookup(old(self)@, key@),
            final(self)@ == put(old(self)@, key@, value),
            lookup(final(self)@, key@) == Some(value),
    {
        proof {
            use_type_invariant(&*self);
            lemma_index_of(self@, key@);
        }
        let ghost before = self@;
        let found = self.position(key.as_str());
        let mut entries: Vec<Entry<V>> = Vec::new();
        core::mem::swap(&mut self.entries, &mut entries);
        assert(self@ =~= Seq::<(Seq<char>, V)>::empty());
        assert(entries_view(entries@) =~= before);
        let r = match found {
            Some(i) => {
                let taken = entries.remove(i);
                entries.insert(i, Entry { key, value });
                proof {
                    let after = entries_view(entries@);
                    assert(after =~= before.update(i as int, (key@, value)));
                    assert forall|a: int, b: int|
                        0 <= a < after.len() && 0 <= b < after.len() && a != b implies (
                    #[trigger] after[a]).0 != (#[trigger] after[b]).0 by {
                        assert(after[a].0 == before[a].0);
                        assert(after[b].0 == before[b].0);
                    }
                    lemma_index_of_position(after, i as int);
                }
                Some(taken.value)
            },
            None => {
                entries.push(Entry { key, value });
                proof {
                    let after = entries_view(entries@);
                    assert(after =~= before.push((key@, value)));
                    assert forall|a: int, b: int|
                        0 <= a < after.len() && 0 <= b < after.len() && a != b implies (
                    #[trigger] after[a]).0 != (#[trigger] after[b]).0 by {
                        if a < before.len() {
                            assert(after[a] == before[a]);
                        }
                        if b < before.len() {
                            assert(after[b] == before[b]);
                        }
                    }
                    lemma_index_of_position(after, before.len() as int);
                }
                None
            },
        };
        core::mem::swap(&mut self.entries, &mut entries);
        r
    }

    /// Puts `value` in place of the value at position `i` and hands the old one back.
    pub fn replace_value_at(&mut self, i: usize, value: V) -> (r: V)
        requires
            i < old(self)@.len(),
        ensures
            distinct_keys(final(self)@),
            r == old(self)@[i as int].1,
            final(self)@ == old(self)@.update(i as int, (old(self)@[i as int].0, value)),
    {
        proof {
            use_type_invariant(&*self);
        }
        let ghost before = self@;
        let mut entries: Vec<Entry<V>> = Vec::new();
        core::mem::swap(&mut self.entries, &mut entries);
        assert(self@ =~= Seq::<(Seq<char>, V)>::empty());
        assert(entries_view(entries@) =~= before);
        let taken = entries.remove(i);
        entries.insert(i, Entry { key: taken.key, value });
        proof {
            let after = entries_view(entries@);
            assert(after =~= before.update(i as int, (before[i as int].0, value)));
            assert forall|a: int, b: int|
                0 <= a < after.len() && 0 <= b < after.len() && a != b implies (#[trigger] after[a]).0
                != (#[trigger] after[b]).0 by {
                assert(after[a].0 == before[a].0);
                assert(after[b].0 == before[b].0);
            }
        }
        core::mem::swap(&mut self.entries, &mut entries);
        taken.value
    }

    /// Removes the entry under `key` and hands its value back. The entries
    /// that stay keep their order.
    pub fn remove(&mut self, key: &str) -> (r: Option<V>)
        ensures
            distinct_keys(final(self)@),
            r == lookup(old(self)@, key@),
            final(self)@ == without(old(self)@, key@),
            !has_key(final(self)@, key@),
    {
        proof {
            use_type_invariant(&*self);
            lemma_index_of(self@, key@);
        }
        let ghost before = self@;
        match self.position(key) {
            Some(i) => {
                let mut entries: Vec<Entry<V>> = Vec::new();
                core::mem::swap(&mut self.entries, &mut entries);
                assert(self@ =~= Seq::<(Seq<char>, V)>::empty());
                assert(entries_view(entries@) =~= before);
                let taken = entries.remove(i);
                proof {
                    let after = entries_view(entries@);
                    assert(after =~= before.remove(i as int));
                    assert forall|a: int, b: int|
                        0 <= a < after.len() && 0 <= b < after.len() && a != b implies (
                    #[trigger] after[a]).0 != (#[trigger] after[b]).0 by {
                        let a0 = if a < i { a } else { a + 1 };
                        let b0 = if b < i { b } else { b + 1 };
                        assert(after[a] == before[a0]);
                        assert(after[b] == before[b0]);
                    }
                    if has_key(after, key@) {
                        let k = choose|k: int| 0 <= k < after.len() && (#[trigger] after[k]).0 == key@;
                        let k0 = if k < i { k } else { k + 1 };
                        assert(after[k] == before[k0]);
                        assert(before[k0].0 == before[i as int].0);
                    }
                }
                core::mem::swap(&mut self.entries, &mut entries);
                Some(taken.value)
            },
            None => None,
        }
    }
}

impl StringTable<String> {
    /// Stores each entry of `other` in this table, in order: a value under
    /// a key that is already present takes the place of the old one.
    pub fn merge_from(&mut self, other: &StringTable<String>)
        ensures
            distinct_keys(final(self)@),
            final(self)@ == merged(old(self)@, other@),
    {
        let n = other.len();
        let mut i: usize = 0;
        assert(other@.subrange(0, 0) =~= Seq::<(Seq<char>, String)>::empty());
        while i < n
            invariant
                i <= n,
                n == other@.len(),
                self@ == merged(old(self)@, other@.subrange(0, i as int)),
            decreases n - i,
        {
            let key = other.key_at(i).clone();
            let value = other.value_at(i).clone();
            proof {
                let next = other@.subrange(0, i + 1);
                assert(next.drop_last() =~= other@.subrange(0, i as int));
                assert(next.last() == other@[i as int]);
            }
            let _ = self.insert(key, value);
            i += 1;
        }
        assert(other@.subrange(0, n as int) =~= other@);
        self.keys_are_distinct();
    }
}

impl Clone for StringTable<String> {
    /// A table with the same keys and values in the same order.
    fn clone(&self) -> (r: Self)
        ensures
            r@ == self@,
    {
        proof {
            use_type_invariant(self);
        }
        let mut entries: Vec<Entry<String>> = Vec::new();
        let mut i: usize = 0;
        while i < self.entries.len()
            invariant
                i <= self.entries.len(),
                entries.len() == i,
                forall|j: int|
                    0 <= j < i ==> entries[j].key@ == self.entries[j].key@ && entries[j].value
                        == self.entries[j].value,
            decreases self.entries.len() - i,
        {
            entries.push(
                Entry { key: self.entries[i].key.clone(), value: self.entries[i].value.clone() },
            );
            i += 1;
        }
        assert(entries_view(entries@) =~= self@);
        StringTable { entries }
    }
}

} // verus!
