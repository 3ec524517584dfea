//! An insertion-ordered table keyed by string identifiers.
//!
//! Every service of the node keeps its records (peers, shards, tasks,
//! accounts, ...) in a [`Registry`]. A key occurs at most once; inserting
//! under a key that is already present overwrites the record in place, so
//! the order in which keys were first seen is the order in which the table
//! is walked.
use vstd::prelude::*;

verus! {

/// The position of the first entry of `entries` stored under `key`, if any.
pub open spec fn find<V>(entries: Seq<(Seq<char>, V)>, key: Seq<char>) -> Option<int>
    decreases entries.len(),
{
    if entries.len() == 0 {
        None
    } else if entries[0].0 == key {
        Some(0int)
    } else {
        match find(entries.drop_first(), key) {
            Some(i) => Some(i + 1),
            None => None,
        }
    }
}

/// No two entries share a key.
pub open spec fn unique_keys<V>(entries: Seq<(Seq<char>, V)>) -> bool {
    forall|i: int, j: int|
        0 <= i < j < entries.len() ==> (#[trigger] entries[i]).0 != (#[trigger] entries[j]).0
}

/// `entries` with `value` stored under `key`: in place where the key is
/// present, at the end where it is not.
pub open spec fn upsert<V>(entries: Seq<(Seq<char>, V)>, key: Seq<char>, value: V) -> Seq<
    (Seq<char>, V),
> {
    match find(entries, key) {
        Some(i) => entries.update(i, (key, value)),
        None => entries.push((key, value)),
    }
}

/// `entries` without the entry stored under `key`.
pub open spec fn without<V>(entries: Seq<(Seq<char>, V)>, key: Seq<char>) -> Seq<(Seq<char>, V)> {
    match find(entries, key) {
        Some(i) => entries.remove(i),
        None => entries,
    }
}

/// The record stored under `key`, if any.
pub open spec fn lookup<V>(entries: Seq<(Seq<char>, V)>, key: Seq<char>) -> Option<V> {
    match find(entries, key) {
        Some(i) => Some(entries[i].1),
        None => None,
    }
}

/// `find` returns the first position that holds the key, and `None` exactly
/// when no position does.
pub proof fn lemma_find<V>(entries: Seq<(Seq<char>, V)>, key: Seq<char>)
    ensures
        match find(entries, key) {
            Some(i) => 0 <= i < entries.len() && entries[i].0 == key && forall|j: int|
                0 <= j < i ==> (#[trigger] entries[j]).0 != key,
            None => forall|j: int| 0 <= j < entries.len() ==> (#[trigger] entries[j]).0 != key,
        },
    decreases entries.len(),
{
    if entries.len() > 0 && entries[0].0 != key {
        let rest = entries.drop_first();
        lemma_find(rest, key);
        match find(rest, key) {
            Some(i) => {
                assert forall|j: int| 0 <= j < i + 1 implies (#[trigger] entries[j]).0 != key by {
                    if j > 0 {
                        assert(rest[j - 1] == entries[j]);
                    }
                }
            },
            None => {
                assert forall|j: int| 0 <= j < entries.len() implies (#[trigger] entries[j]).0
                    != key by {
                    if j > 0 {
                        assert(rest[j - 1] == entries[j]);
                    }
                }
            },
        }
    }
}

/// Storing under a key that no entry has adds an entry at the end.
pub proof fn lemma_upsert_fresh<V>(entries: Seq<(Seq<char>, V)>, key: Seq<char>, value: V)
    requires
        forall|i: int| 0 <= i < entries.len() ==> (#[trigger] entries[i]).0 != key,
    ensures
        upsert(entries, key, value) == entries.push((key, value)),
{
    lemma_find(entries, key);
}

/// Storing twice under one key leaves one entry: the second record takes
/// the place of the first, at the same position, and the table is as long
/// as after the first store.
pub proof fn lemma_upsert_again<V>(
    entries: Seq<(Seq<char>, V)>,
    key: Seq<char>,
    first: V,
    second: V,
)
    ensures
        upsert(upsert(entries, key, first), key, second) == upsert(entries, key, second),
        upsert(upsert(entries, key, first), key, second).len() == upsert(entries, key, first).len(),
        find(upsert(upsert(entries, key, first), key, second), key) == find(
            upsert(entries, key, first),
            key,
        ),
        lookup(upsert(upsert(entries, key, first), key, second), key) == Some(second),
{
    let once = upsert(entries, key, first);
    lemma_find(entries, key);
    lemma_find(once, key);
    match find(entries, key) {
        Some(i) => {
            assert(once[i].0 == key);
        },
        None => {
            assert(once[entries.len() as int].0 == key);
            assert forall|j: int| 0 <= j < entries.len() implies (#[trigger] once[j]).0 != key by {
                assert(once[j] == entries[j]);
            }
        },
    }
    let twice = upsert(once, key, second);
    assert(twice =~= upsert(entries, key, second));
    lemma_upsert(entries, key, second);
    lemma_find(twice, key);
    let at = find(once, key)->0;
    assert(twice[at].0 == key);
    assert forall|j: int| 0 <= j < at implies (#[trigger] twice[j]).0 != key by {
        assert(twice[j] == once[j]);
    }
}

/// Storing under a key keeps keys unique, makes the key resolve to the new
/// record and leaves every other key as it was. The table grows by one
/// entry exactly when the key is new.
pub proof fn lemma_upsert<V>(entries: Seq<(Seq<char>, V)>, key: Seq<char>, value: V)
    ensures
        unique_keys(entries) ==> unique_keys(upsert(entries, key, value)),
        lookup(upsert(entries, key, value), key) == Some(value),
        forall|other: Seq<char>|
            other != key ==> #[trigger] lookup(upsert(entries, key, value), other) == lookup(
                entries,
                other,
            ),
        upsert(entries, key, value).len() == if find(entries, key) is Some {
            entries.len()
        } else {
            entries.len() + 1
        },
{
    let after = upsert(entries, key, value);
    lemma_find(entries, key);
    lemma_find(after, key);
    match find(entries, key) {
        Some(i) => {
            assert(after[i].0 == key);
        },
        None => {
            assert(after[entries.len() as int].0 == key);
        },
    }
    assert forall|other: Seq<char>| other != key implies #[trigger] lookup(after, other) == lookup(
        entries,
        other,
    ) by {
        lemma_find(entries, other);
        lemma_find(after, other);
        match find(entries, other) {
            Some(j) => {
                assert(after[j].0 == other);
            },
            None => {
                if find(after, other) is Some {
                    let j = find(after, other)->0;
                    if j < entries.len() {
                        assert(entries[j].0 == other);
                    }
                }
            },
        }
    }
}

/// Removing a key keeps keys unique, makes the key absent and leaves every
/// other key as it was.
pub proof fn lemma_without<V>(entries: Seq<(Seq<char>, V)>, key: Seq<char>)
    ensures
        unique_keys(entries) ==> unique_keys(without(entries, key)),
        unique_keys(entries) ==> lookup(without(entries, key), key) is None,
        forall|other: Seq<char>|
            other != key ==> #[trigger] lookup(without(entries, key), other) == lookup(
                entries,
                other,
            ),
        without(entries, key).len() == if find(entries, key) is Some {
            entries.len() - 1
        } else {
            entries.len() as int
        },
{
    let after = without(entries, key);
    lemma_find(entries, key);
    lemma_find(after, key);
    match find(entries, key) {
        Some(i) => {
            if unique_keys(entries) {
                assert forall|a: int, b: int| 0 <= a < b < after.len() implies (
                #[trigger] after[a]).0 != (#[trigger] after[b]).0 by {
                    let a0 = if a < i { a } else { a + 1 };
                    let b0 = if b < i { b } else { b + 1 };
                    assert(after[a] == entries[a0]);
                    assert(after[b] == entries[b0]);
                }
                if find(after, key) is Some {
                    let j = find(after, key)->0;
                    let j0 = if j < i { j } else { j + 1 };
                    assert(after[j] == entries[j0]);
                }
            }
            assert forall|other: Seq<char>| other != key implies #[trigger] lookup(after, other)
                == lookup(entries, other) by {
                lemma_find(entries, other);
                lemma_find(after, other);
                match find(entries, other) {
                    Some(j) => {
                        let j1 = if j < i { j } else { j - 1 };
                        assert(after[j1] == entries[j]);
                        let k = find(after, other)->0;
                        let k0 = if k < i { k } else { k + 1 };
                        assert(after[k] == entries[k0]);
                    },
                    None => {
                        if find(after, other) is Some {
                            let k = find(after, other)->0;
                            let k0 = if k < i { k } else { k + 1 };
                            assert(after[k] == entries[k0]);
                        }
                    },
                }
            }
        },
        None => {},
    }
}

/// `entries` with every record replaced by its image under `f`.
pub open spec fn project<V, W>(entries: Seq<(Seq<char>, V)>, f: spec_fn(V) -> W) -> Seq<
    (Seq<char>, W),
> {
    Seq::new(entries.len(), |i: int| (entries[i].0, f(entries[i].1)))
}

/// Projecting the records moves no key.
pub proof fn lemma_project_find<V, W>(
    entries: Seq<(Seq<char>, V)>,
    f: spec_fn(V) -> W,
    key: Seq<char>,
)
    ensures
        find(project(entries, f), key) == find(entries, key),
        lookup(project(entries, f), key) == match lookup(entries, key) {
            Some(v) => Some(f(v)),
            None => None,
        },
        unique_keys(project(entries, f)) == unique_keys(entries),
    decreases entries.len(),
{
    let image = project(entries, f);
    lemma_find(entries, key);
    lemma_find(image, key);
    match find(entries, key) {
        Some(i) => {
            assert(image[i].0 == key);
            let j = find(image, key)->0;
            assert(entries[j].0 == image[j].0);
        },
        None => {
            if find(image, key) is Some {
                let j = find(image, key)->0;
                assert(entries[j].0 == image[j].0);
            }
        },
    }
    if unique_keys(entries) {
        assert forall|i: int, j: int| 0 <= i < j < image.len() implies (#[trigger] image[i]).0 != (
        #[trigger] image[j]).0 by {
            assert(entries[i].0 == image[i].0);
            assert(entries[j].0 == image[j].0);
        }
    }
    if unique_keys(image) {
        assert forall|i: int, j: int| 0 <= i < j < entries.len() implies (#[trigger] entries[i]).0
            != (#[trigger] entries[j]).0 by {
            assert(entries[i].0 == image[i].0);
            assert(entries[j].0 == image[j].0);
        }
    }
}

/// Storing and projecting commute.
pub proof fn lemma_project_upsert<V, W>(
    entries: Seq<(Seq<char>, V)>,
    f: spec_fn(V) -> W,
    key: Seq<char>,
    value: V,
)
    ensures
        project(upsert(entries, key, value), f) == upsert(project(entries, f), key, f(value)),
{
    lemma_project_find(entries, f, key);
    lemma_find(entries, key);
    assert(project(upsert(entries, key, value), f) =~= upsert(project(entries, f), key, f(value)));
}

/// Removing and projecting commute.
pub proof fn lemma_project_without<V, W>(
    entries: Seq<(Seq<char>, V)>,
    f: spec_fn(V) -> W,
    key: Seq<char>,
)
    ensures
        project(without(entries, key), f) == without(project(entries, f), key),
{
    lemma_project_find(entries, f, key);
    lemma_find(entries, key);
    assert(project(without(entries, key), f) =~= without(project(entries, f), key));
}

/// The records of `entries` that `keep` holds of, in the order of the table.
pub open spec fn selected<V>(
    entries: Seq<(Seq<char>, V)>,
    keep: spec_fn(Seq<char>, V) -> bool,
) -> Seq<V>
    decreases entries.len(),
{
    if entries.len() == 0 {
        Seq::empty()
    } else {
        let earlier = selected(entries.drop_last(), keep);
        if keep(entries.last().0, entries.last().1) {
            earlier.push(entries.last().1)
        } else {
            earlier
        }
    }
}

/// Where `keep` holds of every entry, every record is selected.
pub proof fn lemma_selected_all<V>(entries: Seq<(Seq<char>, V)>, keep: spec_fn(Seq<char>, V) -> bool)
    requires
        forall|i: int| 0 <= i < entries.len() ==> keep((#[trigger] entries[i]).0, entries[i].1),
    ensures
        selected(entries, keep).len() == entries.len(),
    decreases entries.len(),
{
    if entries.len() > 0 {
        let earlier = entries.drop_last();
        assert forall|i: int| 0 <= i < earlier.len() implies keep(
            (#[trigger] earlier[i]).0,
            earlier[i].1,
        ) by {
            assert(earlier[i] == entries[i]);
        }
        lemma_selected_all(earlier, keep);
        assert(entries.last() == entries[entries.len() - 1]);
    }
}

/// The values that a sequence of references points to.
pub open spec fn targets<V>(refs: Seq<&V>) -> Seq<V> {
    Seq::new(refs.len(), |i: int| *refs[i])
}

/// Selecting from one entry more either adds that entry's record or
/// nothing.
pub proof fn lemma_selected_step<V>(
    entries: Seq<(Seq<char>, V)>,
    keep: spec_fn(Seq<char>, V) -> bool,
    i: int,
)
    requires
        0 <= i < entries.len(),
    ensures
        selected(entries.take(i + 1), keep) == if keep(entries[i].0, entries[i].1) {
            selected(entries.take(i), keep).push(entries[i].1)
        } else {
            selected(entries.take(i), keep)
        },
        selected(entries.take(i + 1), keep).len() <= i + 1,
    decreases i,
{
    assert(entries.take(i + 1).drop_last() =~= entries.take(i));
    if i > 0 {
        lemma_selected_step(entries, keep, i - 1);
        assert(entries.take(i - 1 + 1) == entries.take(i));
        assert(selected(entries.take(i), keep).len() <= i);
    } else {
        assert(entries.take(0).len() == 0);
        assert(selected(entries.take(0), keep).len() == 0);
    }
}

#[derive(Debug)]
struct Slot<V> {
    key: String,
    value: V,
}

/// An insertion-ordered table from string keys to records of type `V`.
#[derive(Debug)]
pub struct Registry<V> {
    slots: Vec<Slot<V>>,
}

impl<V> Registry<V> {
    #[verifier::type_invariant]
    spec fn well_formed(self) -> bool {
        unique_keys(self.entries())
    }

    /// The entries of the table, oldest key first.
    pub closed spec fn entries(self) -> Seq<(Seq<char>, V)> {
        Seq::new(self.slots@.len(), |i: int| (self.slots@[i].key@, self.slots@[i].value))
    }

    /// Whether a record is stored under `key`.
    pub open spec fn contains(self, key: Seq<char>) -> bool {
        find(self.entries(), key) is Some
    }

    /// The record stored under `key`; arbitrary where there is none.
    pub open spec fn record(self, key: Seq<char>) -> V {
        lookup(self.entries(), key)->0
    }

    /// An empty table.
    pub fn new() -> (table: Self)
        ensures
            table.entries() == Seq::<(Seq<char>, V)>::empty(),
    {
        let table = Registry { slots: Vec::new() };
        assert(table.entries() =~= Seq::<(Seq<char>, V)>::empty());
        table
    }

    /// The number of entries.
    pub fn len(&self) -> (n: usize)
        ensures
            n == self.entries().len(),
            unique_keys(self.entries()),
    {
        proof {
            use_type_invariant(self);
        }
        self.slots.len()
    }

    /// Whether the table has no entry.
    pub fn is_empty(&self) -> (empty: bool)
        ensures
            empty == (self.entries().len() == 0),
    {
        self.slots.len() == 0
    }

    /// The position of `key` in insertion order.
    pub fn position(&self, key: &str) -> (at: Option<usize>)
        ensures
            unique_keys(self.entries()),
            match at {
                Some(i) => i < self.entries().len() && find(self.entries(), key@) == Some(
                    i as int,
                ),
                None => find(self.entries(), key@) is None,
            },
    {
        proof {
            use_type_invariant(self);
        }
        let wanted = key.to_owned();
        let mut i: usize = 0;
        while i < self.slots.len()
            invariant
                i <= self.slots@.len(),
                wanted@ == key@,
                unique_keys(self.entries()),
                forall|j: int| 0 <= j < i ==> (#[trigger] self.entries()[j]).0 != key@,
            decreases self.slots@.len() - i,
        {
            if self.slots[i].key == wanted {
                proof {
                    lemma_find(self.entries(), key@);
                    assert(self.entries()[i as int].0 == key@);
                }
                return Some(i);
            }
            i += 1;
        }
        proof {
            lemma_find(self.entries(), key@);
        }
        None
    }

    /// Whether a record is stored under `key`.
    pub fn contains_key(&self, key: &str) -> (present: bool)
        ensures
            present == self.contains(key@),
    {
        self.position(key).is_some()
    }

    /// The record stored under `key`.
    pub fn get(&self, key: &str) -> (found: Option<&V>)
        ensures
            match found {
                Some(v) => lookup(self.entries(), key@) == Some(*v),
                None => lookup(self.entries(), key@) is None,
            },
    {
        match self.position(key) {
            Some(i) => Some(&self.slots[i].value),
            None => None,
        }
    }

    /// The key of the entry at position `i`.
    pub fn key_at(&self, i: usize) -> (key: &String)
        requires
            i < self.entries().len(),
        ensures
            key@ == self.entries()[i as int].0,
    {
        &self.slots[i].key
    }

    /// The record of the entry at position `i`.
    pub fn value_at(&self, i: usize) -> (value: &V)
        requires
            i < self.entries().len(),
        ensures
            *value == self.entries()[i as int].1,
    {
        &self.slots[i].value
    }

    /// Stores `value` under `key`, overwriting in place a record that is
    /// already there.
    pub fn insert(&mut self, key: String, value: V)
        ensures
            final(self).entries() == upsert(old(self).entries(), key@, value),
            lookup(final(self).entries(), key@) == Some(value),
            unique_keys(final(self).entries()),
    {
        proof {
            use_type_invariant(&*self);
            lemma_upsert(self.entries(), key@, value);
        }
        let at = self.position(key.as_str());
        let ghost before = self.entries();
        let mut slots = Vec::new();
        std::mem::swap(&mut slots, &mut self.slots);
        match at {
            Some(i) => {
                slots.set(i, Slot { key, value });
            },
            None => {
                slots.push(Slot { key, value });
            },
        }
        let ghost after = Seq::new(slots@.len(), |i: int| (slots@[i].key@, slots@[i].value));
        assert(after =~= upsert(before, key@, value));
        self.slots = slots;
        assert(self.entries() =~= after);
    }

    /// Removes the record stored under `key` and returns it.
    pub fn remove(&mut self, key: &str) -> (removed: Option<V>)
        ensures
            final(self).entries() == without(old(self).entries(), key@),
            removed == lookup(old(self).entries(), key@),
            unique_keys(final(self).entries()),
    {
        proof {
            use_type_invariant(&*self);
            lemma_without(self.entries(), key@);
        }
        let at = self.position(key);
        let ghost before = self.entries();
        match at {
            Some(i) => {
                let mut slots = Vec::new();
                std::mem::swap(&mut slots, &mut self.slots);
                let slot = slots.remove(i);
                let ghost after = Seq::new(
                    slots@.len(),
                    |i: int| (slots@[i].key@, slots@[i].value),
                );
                assert(after =~= without(before, key@));
                self.slots = slots;
                assert(self.entries() =~= after);
                Some(slot.value)
            },
            None => None,
        }
    }
}

impl<V: Copy> Registry<V> {
    /// A copy of this table.
    pub fn duplicate(&self) -> (copy: Self)
        ensures
            copy.entries() == self.entries(),
    {
        proof {
            use_type_invariant(self);
        }
        let mut slots: Vec<Slot<V>> = Vec::new();
        let mut i: usize = 0;
        while i < self.slots.len()
            invariant
                i <= self.slots@.len(),
                slots@.len() == i,
                forall|j: int|
                    0 <= j < i ==> (#[trigger] slots@[j]).key@ == self.slots@[j].key@ && slots@[j].value
                        == self.slots@[j].value,
            decreases self.slots@.len() - i,
        {
            slots.push(Slot { key: self.slots[i].key.clone(), value: self.slots[i].value });
            i += 1;
        }
        let ghost copied = Seq::new(slots@.len(), |i: int| (slots@[i].key@, slots@[i].value));
        assert(copied =~= self.entries());
        let copy = Registry { slots };
        assert(copy.entries() =~= copied);
        copy
    }
}

impl<V: Clone> Clone for Registry<V> {
    /// A table with the same keys in the same order, each with a clone of
    /// its record.
    fn clone(&self) -> (copy: Self)
        ensures
            copy.entries().len() == self.entries().len(),
            forall|i: int|
                0 <= i < self.entries().len() ==> (#[trigger] copy.entries()[i]).0
                    == self.entries()[i].0 && cloned(self.entries()[i].1, copy.entries()[i].1),
    {
        proof {
            use_type_invariant(self);
        }
        let mut slots: Vec<Slot<V>> = Vec::new();
        let mut i: usize = 0;
        while i < self.slots.len()
            invariant
                i <= self.slots@.len(),
                slots@.len() == i,
                forall|j: int|
                    0 <= j < i ==> (#[trigger] slots@[j]).key@ == self.slots@[j].key@ && cloned(
                        self.slots@[j].value,
                        slots@[j].value,
                    ),
            decreases self.slots@.len() - i,
        {
            slots.push(Slot { key: self.slots[i].key.clone(), value: self.slots[i].value.clone() });
            i += 1;
        }
        let ghost copied = Seq::new(slots@.len(), |i: int| (slots@[i].key@, slots@[i].value));
        assert forall|a: int, b: int| 0 <= a < b < copied.len() implies (#[trigger] copied[a]).0 != (
        #[trigger] copied[b]).0 by {
            assert(self.entries()[a].0 == copied[a].0);
            assert(self.entries()[b].0 == copied[b].0);
        }
        let copy = Registry { slots };
        assert(copy.entries() =~= copied);
        copy
    }
}

} // verus!
