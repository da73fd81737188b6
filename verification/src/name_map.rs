//! A small map keyed by text, kept as two parallel vectors in the order of the names.

use vstd::prelude::*;
use vstd::utf8::encode_utf8;
use crate::text::{
    lemma_bytes_precede_irreflexive, lemma_bytes_precede_transitive, precedes, text_order, Rank,
};

verus! {

/// No name occurs twice.
pub open spec fn distinct_names(names: Seq<String>) -> bool {
    forall|i: int, j: int| 0 <= i < j < names.len() ==> names[i]@ != names[j]@
}

/// Each name comes before all that follow it, in the order of texts.
pub open spec fn ascending(names: Seq<String>) -> bool {
    forall|i: int, j: int| 0 <= i < j < names.len() ==> precedes(names[i]@, names[j]@)
}

/// Names in ascending order are distinct.
proof fn lemma_ascending_distinct(names: Seq<String>)
    requires
        ascending(names),
    ensures
        distinct_names(names),
{
    assert forall|i: int, j: int| 0 <= i < j < names.len() implies names[i]@ != names[j]@ by {
        assert(precedes(names[i]@, names[j]@));
        lemma_bytes_precede_irreflexive(encode_utf8(names[i]@));
    }
}

/// A text that follows all names before an index, and comes before the name at the index,
/// is none of the names and comes before every name from the index on.
proof fn lemma_slot_is_free(names: Seq<String>, at: int, name: Seq<char>)
    requires
        ascending(names),
        0 <= at <= names.len(),
        forall|j: int| 0 <= j < at ==> precedes(names[j]@, name),
        at < names.len() ==> precedes(name, names[at]@),
    ensures
        !has_name(names, name),
        forall|j: int| at <= j < names.len() ==> precedes(name, names[j]@),
{
    assert forall|j: int| at <= j < names.len() implies precedes(name, names[j]@) by {
        if at < j {
            assert(precedes(names[at]@, names[j]@));
            lemma_bytes_precede_transitive(
                encode_utf8(name),
                encode_utf8(names[at]@),
                encode_utf8(names[j]@),
            );
        }
    }
    assert forall|j: int| 0 <= j < names.len() implies names[j]@ != name by {
        lemma_bytes_precede_irreflexive(encode_utf8(name));
    }
}

/// Such a name can be put in at that index, and the order is kept.
proof fn lemma_ascending_insert(names: Seq<String>, at: int, name: String)
    requires
        ascending(names),
        0 <= at <= names.len(),
        forall|j: int| 0 <= j < at ==> precedes(names[j]@, name@),
        at < names.len() ==> precedes(name@, names[at]@),
    ensures
        ascending(names.insert(at, name)),
{
    lemma_slot_is_free(names, at, name@);
    let longer = names.insert(at, name);
    assert forall|i: int, j: int| 0 <= i < j < longer.len() implies precedes(
        longer[i]@,
        longer[j]@,
    ) by {
        let i0 = if i < at { i } else { i - 1 };
        let j0 = if j < at { j } else { j - 1 };
        if i == at {
            assert(precedes(name@, names[j0]@));
        } else if j == at {
            assert(precedes(names[i0]@, name@));
        } else {
            assert(precedes(names[i0]@, names[j0]@));
        }
    }
}

/// Dropping a name keeps the order.
proof fn lemma_ascending_remove(names: Seq<String>, at: int)
    requires
        ascending(names),
        0 <= at < names.len(),
    ensures
        ascending(names.remove(at)),
{
    let fewer = names.remove(at);
    assert forall|i: int, j: int| 0 <= i < j < fewer.len() implies precedes(
        fewer[i]@,
        fewer[j]@,
    ) by {
        let i0 = if i < at { i } else { i + 1 };
        let j0 = if j < at { j } else { j + 1 };
        assert(precedes(names[i0]@, names[j0]@));
    }
}

/// The name stands somewhere in the sequence.
pub open spec fn has_name(names: Seq<String>, name: Seq<char>) -> bool {
    exists|i: int| 0 <= i < names.len() && (#[trigger] names[i])@ == name
}

/// The names up to and with the one at an index are those before it and that one.
pub proof fn lemma_has_name_take(names: Seq<String>, i: int)
    requires
        0 <= i < names.len(),
    ensures
        forall|name: Seq<char>|
            has_name(names.take(i + 1), name) <==> has_name(names.take(i), name) || name
                == names[i]@,
{
    let longer = names.take(i + 1);
    let shorter = names.take(i);
    assert forall|name: Seq<char>|
        has_name(longer, name) <==> has_name(shorter, name) || name == names[i]@ by {
        if has_name(longer, name) {
            let k = index_of_name(longer, name);
            if k < i {
                assert(shorter[k]@ == name);
            }
        }
        if has_name(shorter, name) {
            let k = index_of_name(shorter, name);
            assert(longer[k]@ == name);
        }
        if name == names[i]@ {
            assert(longer[i]@ == name);
        }
    }
}

/// An index at which the name stands, where there is one.
pub open spec fn index_of_name(names: Seq<String>, name: Seq<char>) -> int {
    choose|i: int| 0 <= i < names.len() && (#[trigger] names[i])@ == name
}

/// The map that sends each name to the value at the same index.
pub open spec fn zipped_map<V>(names: Seq<String>, values: Seq<V>) -> Map<Seq<char>, V> {
    Map::new(
        |name: Seq<char>| has_name(names, name),
        |name: Seq<char>| values[index_of_name(names, name)],
    )
}

/// The pairs name each key of the map once, each with the value the map gives it.
pub open spec fn lists_exactly<V>(pairs: Seq<(String, V)>, map: Map<Seq<char>, V>) -> bool {
    &&& forall|i: int, j: int| 0 <= i < j < pairs.len() ==> pairs[i].0@ != pairs[j].0@
    &&& forall|i: int|
        0 <= i < pairs.len() ==> map.contains_key((#[trigger] pairs[i]).0@) && map[pairs[i].0@]
            == pairs[i].1
    &&& forall|name: Seq<char>| #[trigger]
        map.contains_key(name) ==> exists|i: int|
            0 <= i < pairs.len() && (#[trigger] pairs[i]).0@ == name
}

/// Each pair's name comes before the names of all pairs that follow it.
pub open spec fn ascending_pairs<V>(pairs: Seq<(String, V)>) -> bool {
    forall|i: int, j: int| 0 <= i < j < pairs.len() ==> precedes(pairs[i].0@, pairs[j].0@)
}

/// The names that occur in the sequence.
pub open spec fn name_set(names: Seq<String>) -> Set<Seq<char>> {
    Set::new(|name: Seq<char>| has_name(names, name))
}

/// Distinct names make a finite set with one member for each of them.
proof fn lemma_name_set_size(names: Seq<String>)
    requires
        distinct_names(names),
    ensures
        name_set(names).finite(),
        name_set(names).len() == names.len(),
    decreases names.len(),
{
    if names.len() == 0 {
        assert(name_set(names) =~= Set::<Seq<char>>::empty());
    } else {
        let front = names.drop_last();
        let last = names.last();
        lemma_name_set_size(front);
        assert(!name_set(front).contains(last@));
        assert forall|name: Seq<char>| name_set(names).contains(name) <==> name_set(front).insert(
            last@,
        ).contains(name) by {
            if has_name(names, name) {
                let i = index_of_name(names, name);
                if i < front.len() {
                    assert(front[i]@ == name);
                }
            }
            if has_name(front, name) {
                let i = index_of_name(front, name);
                assert(names[i]@ == name);
            }
            if name == last@ {
                assert(names[names.len() - 1]@ == name);
            }
        }
        assert(name_set(names) =~= name_set(front).insert(last@));
    }
}

/// With distinct names, the map gives each name the value at its own index.
proof fn lemma_zipped_at<V>(names: Seq<String>, values: Seq<V>, i: int)
    requires
        distinct_names(names),
        names.len() == values.len(),
        0 <= i < names.len(),
    ensures
        has_name(names, names[i]@),
        index_of_name(names, names[i]@) == i,
        zipped_map(names, values).contains_key(names[i]@),
        zipped_map(names, values)[names[i]@] == values[i],
{
    assert(names[i]@ == names[i]@);
    let found = index_of_name(names, names[i]@);
    assert(0 <= found < names.len() && names[found]@ == names[i]@);
    if found < i {
        assert(names[found]@ != names[i]@);
    } else if i < found {
        assert(names[i]@ != names[found]@);
    }
}

/// Writing a value at an index is an insert under the name at that index.
proof fn lemma_zipped_update<V>(names: Seq<String>, values: Seq<V>, i: int, value: V)
    requires
        distinct_names(names),
        names.len() == values.len(),
        0 <= i < names.len(),
    ensures
        zipped_map(names, values.update(i, value)) == zipped_map(names, values).insert(
            names[i]@,
            value,
        ),
{
    let before = zipped_map(names, values);
    let after = zipped_map(names, values.update(i, value));
    lemma_zipped_at(names, values.update(i, value), i);
    assert forall|name: Seq<char>| #[trigger] after.contains_key(name) implies after[name]
        == before.insert(names[i]@, value)[name] by {
        let k = index_of_name(names, name);
        lemma_zipped_at(names, values, k);
        lemma_zipped_at(names, values.update(i, value), k);
    }
    assert(after =~= before.insert(names[i]@, value));
}

/// Putting a fresh name and its value in at the same index is an insert.
proof fn lemma_zipped_insert<V>(
    names: Seq<String>,
    values: Seq<V>,
    at: int,
    name: String,
    value: V,
)
    requires
        distinct_names(names),
        distinct_names(names.insert(at, name)),
        names.len() == values.len(),
        0 <= at <= names.len(),
        !has_name(names, name@),
    ensures
        zipped_map(names.insert(at, name), values.insert(at, value)) == zipped_map(
            names,
            values,
        ).insert(name@, value),
{
    let longer = names.insert(at, name);
    let more = values.insert(at, value);
    let before = zipped_map(names, values);
    let after = zipped_map(longer, more);
    assert forall|key: Seq<char>| after.contains_key(key) <==> before.insert(
        name@,
        value,
    ).contains_key(key) by {
        if has_name(longer, key) {
            let k = index_of_name(longer, key);
            if k != at {
                let k0 = if k < at { k } else { k - 1 };
                assert(names[k0]@ == key);
            }
        }
        if has_name(names, key) {
            let k = index_of_name(names, key);
            let k1 = if k < at { k } else { k + 1 };
            assert(longer[k1]@ == key);
        }
        if key == name@ {
            assert(longer[at]@ == key);
        }
    }
    assert forall|key: Seq<char>| #[trigger] after.contains_key(key) implies after[key]
        == before.insert(name@, value)[key] by {
        let k = index_of_name(longer, key);
        lemma_zipped_at(longer, more, k);
        if k != at {
            let k0 = if k < at { k } else { k - 1 };
            lemma_zipped_at(names, values, k0);
        }
    }
    assert(after =~= before.insert(name@, value));
}

/// Dropping an index from both sequences removes the name at that index.
proof fn lemma_zipped_remove<V>(names: Seq<String>, values: Seq<V>, i: int)
    requires
        distinct_names(names),
        names.len() == values.len(),
        0 <= i < names.len(),
    ensures
        distinct_names(names.remove(i)),
        zipped_map(names.remove(i), values.remove(i)) == zipped_map(names, values).remove(
            names[i]@,
        ),
{
    let fewer = names.remove(i);
    let less = values.remove(i);
    assert forall|a: int, b: int| 0 <= a < b < fewer.len() implies fewer[a]@ != fewer[b]@ by {
        let a0 = if a < i { a } else { a + 1 };
        let b0 = if b < i { b } else { b + 1 };
        assert(names[a0]@ != names[b0]@);
    }
    let before = zipped_map(names, values);
    let after = zipped_map(fewer, less);
    assert forall|key: Seq<char>| after.contains_key(key) <==> before.remove(
        names[i]@,
    ).contains_key(key) by {
        if has_name(fewer, key) {
            let k = index_of_name(fewer, key);
            let k0 = if k < i { k } else { k + 1 };
            assert(names[k0]@ == key);
            if k0 < i {
                assert(names[k0]@ != names[i]@);
            } else {
                assert(names[i]@ != names[k0]@);
            }
        }
        if has_name(names, key) && key != names[i]@ {
            let k = index_of_name(names, key);
            let k1 = if k < i { k } else { k - 1 };
            assert(fewer[k1]@ == key);
        }
    }
    assert forall|key: Seq<char>| #[trigger] after.contains_key(key) implies after[key]
        == before.remove(names[i]@)[key] by {
        let k = index_of_name(fewer, key);
        let k0 = if k < i { k } else { k + 1 };
        lemma_zipped_at(fewer, less, k);
        lemma_zipped_at(names, values, k0);
    }
    assert(after =~= before.remove(names[i]@));
}

/// A map from names to values. Its view is the map it stands for.
#[derive(Debug, PartialEq, Eq)]
pub struct NameMap<V> {
    names: Vec<String>,
    values: Vec<V>,
}

impl<V> View for NameMap<V> {
    type V = Map<Seq<char>, V>;

    closed spec fn view(&self) -> Map<Seq<char>, V> {
        zipped_map(self.names@, self.values@)
    }
}

impl<V> NameMap<V> {
    #[verifier::type_invariant]
    spec fn well_formed(&self) -> bool {
        &&& self.names.len() == self.values.len()
        &&& ascending(self.names@)
    }

    /// An empty map.
    pub fn new() -> (table: Self)
        ensures
            table@ == Map::<Seq<char>, V>::empty(),
    {
        let table = NameMap { names: Vec::new(), values: Vec::new() };
        assert(table@ =~= Map::<Seq<char>, V>::empty());
        table
    }

    /// Where the name stands, or where it would have to be put in.
    fn slot_for(&self, name: &str) -> (slot: (usize, bool))
        ensures
            slot.0 <= self.names.len(),
            slot.1 ==> slot.0 < self.names.len() && self.names[slot.0 as int]@ == name@,
            !slot.1 ==> !has_name(self.names@, name@),
            !slot.1 ==> forall|j: int| 0 <= j < slot.0 ==> precedes(self.names[j]@, name@),
            !slot.1 && slot.0 < self.names.len() ==> precedes(name@, self.names[slot.0 as int]@),
    {
        proof {
            use_type_invariant(self);
        }
        let mut i: usize = 0;
        while i < self.names.len()
            invariant
                i <= self.names.len(),
                ascending(self.names@),
                forall|j: int| 0 <= j < i ==> precedes(self.names[j]@, name@),
            decreases self.names.len() - i,
        {
            match text_order(self.names[i].as_str(), name) {
                Rank::Before => {},
                Rank::Same => {
                    return (i, true);
                },
                Rank::After => {
                    proof {
                        lemma_slot_is_free(self.names@, i as int, name@);
                    }
                    return (i, false);
                },
            }
            i += 1;
        }
        proof {
            lemma_slot_is_free(self.names@, i as int, name@);
        }
        (i, false)
    }

    fn position(&self, name: &str) -> (found: Option<usize>)
        ensures
            match found {
                Some(i) => i < self.names.len() && self.names[i as int]@ == name@,
                None => !has_name(self.names@, name@),
            },
    {
        let (at, present) = self.slot_for(name);
        if present {
            Some(at)
        } else {
            None
        }
    }

    /// The number of names in the map.
    pub fn len(&self) -> (count: usize)
        ensures
            count == self@.len(),
            self@.dom().finite(),
    {
        proof {
            use_type_invariant(self);
            lemma_ascending_distinct(self.names@);
            lemma_name_set_size(self.names@);
            assert(self@.dom() =~= name_set(self.names@));
        }
        self.names.len()
    }

    /// Whether the map holds no name at all.
    pub fn is_empty(&self) -> (empty: bool)
        ensures
            empty == (self@ == Map::<Seq<char>, V>::empty()),
    {
        proof {
            if self.names.len() == 0 {
                assert(self@ =~= Map::<Seq<char>, V>::empty());
            } else {
                assert(has_name(self.names@, self.names[0]@));
                assert(self@.contains_key(self.names[0]@));
            }
        }
        self.names.len() == 0
    }

    /// Whether the map holds the name.
    pub fn contains_key(&self, name: &str) -> (present: bool)
        ensures
            present == self@.contains_key(name@),
    {
        self.position(name).is_some()
    }

    /// The value stored under the name, if any.
    pub fn get(&self, name: &str) -> (slot: Option<&V>)
        ensures
            match slot {
                Some(value) => self@.contains_key(name@) && *value == self@[name@],
                None => !self@.contains_key(name@),
            },
    {
        proof {
            use_type_invariant(self);
            lemma_ascending_distinct(self.names@);
        }
        match self.position(name) {
            Some(i) => Some(&self.values[i]),
            None => None,
        }
    }

    /// A mutable borrow of the value stored under the name, if any.
    pub fn get_mut(&mut self, name: &str) -> (slot: Option<&mut V>)
        ensures
            match slot {
                Some(value) => old(self)@.contains_key(name@) && *value == old(self)@[name@]
                    && final(self)@ == old(self)@.insert(name@, *final(value)),
                None => !old(self)@.contains_key(name@) && final(self)@ == old(self)@,
            },
    {
        proof {
            use_type_invariant(&*self);
            lemma_ascending_distinct(self.names@);
        }
        match self.position(name) {
            Some(i) => {
                let slot = &mut self.values[i];
                Some(slot)
            },
            None => None,
        }
    }

    /// Stores the value under the name and hands back the value it displaces, if any.
    pub fn insert(&mut self, name: String, value: V) -> (displaced: Option<V>)
        ensures
            final(self)@ == old(self)@.insert(name@, value),
            displaced == if old(self)@.contains_key(name@) {
                Some(old(self)@[name@])
            } else {
                None::<V>
            },
    {
        proof {
            use_type_invariant(&*self);
            lemma_ascending_distinct(self.names@);
        }
        let (at, present) = self.slot_for(name.as_str());
        if present {
            proof {
                lemma_zipped_at(self.names@, self.values@, at as int);
                lemma_zipped_update(self.names@, self.values@, at as int, value);
            }
            let mut held = value;
            core::mem::swap(&mut self.values[at], &mut held);
            Some(held)
        } else {
            proof {
                lemma_ascending_insert(self.names@, at as int, name);
                lemma_ascending_distinct(self.names@.insert(at as int, name));
                lemma_zipped_insert(self.names@, self.values@, at as int, name, value);
            }
            let mut taken = NameMap::new();
            core::mem::swap(self, &mut taken);
            let NameMap { mut names, mut values } = taken;
            names.insert(at, name);
            values.insert(at, value);
            *self = NameMap { names, values };
            None
        }
    }

    /// Takes the name out of the map and hands back its value, if it had one.
    pub fn remove(&mut self, name: &str) -> (removed: Option<V>)
        ensures
            final(self)@ == old(self)@.remove(name@),
            removed == if old(self)@.contains_key(name@) {
                Some(old(self)@[name@])
            } else {
                None::<V>
            },
    {
        proof {
            use_type_invariant(&*self);
            lemma_ascending_distinct(self.names@);
        }
        match self.position(name) {
            Some(i) => {
                proof {
                    lemma_zipped_at(self.names@, self.values@, i as int);
                    lemma_zipped_remove(self.names@, self.values@, i as int);
                    lemma_ascending_remove(self.names@, i as int);
                }
                let mut taken = NameMap::new();
                core::mem::swap(self, &mut taken);
                let NameMap { mut names, mut values } = taken;
                names.remove(i);
                let value = values.remove(i);
                *self = NameMap { names, values };
                Some(value)
            },
            None => {
                assert(self@ =~= self@.remove(name@));
                None
            },
        }
    }

    /// The names in the map, each once, in ascending order.
    pub fn keys(&self) -> (names: Vec<String>)
        ensures
            names.len() == self@.len(),
            ascending(names@),
            forall|name: Seq<char>| self@.contains_key(name) <==> has_name(names@, name),
    {
        proof {
            use_type_invariant(self);
            lemma_ascending_distinct(self.names@);
            lemma_name_set_size(self.names@);
            assert(self@.dom() =~= name_set(self.names@));
        }
        let mut names: Vec<String> = Vec::new();
        let mut i: usize = 0;
        while i < self.names.len()
            invariant
                i <= self.names.len(),
                names.len() == i,
                forall|k: int| 0 <= k < i ==> names[k] == self.names[k],
            decreases self.names.len() - i,
        {
            names.push(self.names[i].clone());
            i += 1;
        }
        assert(names@ =~= self.names@);
        names
    }

    /// Empties the map and hands back what it held, each name once with its value, in
    /// ascending order of the names.
    pub fn drain(&mut self) -> (pairs: Vec<(String, V)>)
        ensures
            final(self)@ == Map::<Seq<char>, V>::empty(),
            lists_exactly(pairs@, old(self)@),
            pairs.len() == old(self)@.len(),
            ascending_pairs(pairs@),
    {
        proof {
            use_type_invariant(&*self);
            lemma_ascending_distinct(self.names@);
            lemma_name_set_size(self.names@);
            assert(self@.dom() =~= name_set(self.names@));
        }
        let mut taken = NameMap::new();
        core::mem::swap(self, &mut taken);
        let NameMap { mut names, mut values } = taken;
        let ghost all_names = names@;
        let ghost all_values = values@;
        let ghost total = all_names.len() as int;
        let mut stack: Vec<(String, V)> = Vec::new();
        while names.len() > 0
            invariant
                all_names.len() == total,
                all_values.len() == total,
                names.len() == values.len(),
                names.len() + stack.len() == total,
                names@ == all_names.take(names.len() as int),
                values@ == all_values.take(values.len() as int),
                forall|k: int|
                    0 <= k < stack.len() ==> (#[trigger] stack[k]).0 == all_names[total - 1 - k]
                        && stack[k].1 == all_values[total - 1 - k],
            decreases names.len(),
        {
            let name = names.pop().unwrap();
            let value = values.pop().unwrap();
            stack.push((name, value));
        }
        let mut pairs: Vec<(String, V)> = Vec::new();
        while stack.len() > 0
            invariant
                all_names.len() == total,
                all_values.len() == total,
                pairs.len() + stack.len() == total,
                forall|k: int|
                    0 <= k < stack.len() ==> (#[trigger] stack[k]).0 == all_names[total - 1 - k]
                        && stack[k].1 == all_values[total - 1 - k],
                forall|k: int|
                    0 <= k < pairs.len() ==> (#[trigger] pairs[k]).0 == all_names[k] && pairs[k].1
                        == all_values[k],
            decreases stack.len(),
        {
            let pair = stack.pop().unwrap();
            pairs.push(pair);
        }
        proof {
            let held = zipped_map(all_names, all_values);
            assert forall|i: int, j: int| 0 <= i < j < pairs.len() implies precedes(
                pairs[i].0@,
                pairs[j].0@,
            ) by {
                assert(precedes(all_names[i]@, all_names[j]@));
            }
            assert forall|i: int, j: int| 0 <= i < j < pairs.len() implies pairs[i].0@
                != pairs[j].0@ by {
                assert(all_names[i]@ != all_names[j]@);
            }
            assert forall|i: int| 0 <= i < pairs.len() implies held.contains_key(
                (#[trigger] pairs[i]).0@,
            ) && held[pairs[i].0@] == pairs[i].1 by {
                lemma_zipped_at(all_names, all_values, i);
            }
            assert forall|name: Seq<char>| #[trigger] held.contains_key(name) implies exists|
                i: int,
            |
                0 <= i < pairs.len() && (#[trigger] pairs[i]).0@ == name by {
                let k = index_of_name(all_names, name);
                assert(pairs[k].0@ == name);
            }
        }
        pairs
    }
}

impl<V: Clone> Clone for NameMap<V> {
    /// A map with the same names, each with a clone of its value.
    fn clone(&self) -> (copy: Self)
        ensures
            copy@.dom() == self@.dom(),
            forall|name: Seq<char>| #[trigger]
                self@.contains_key(name) ==> cloned(self@[name], copy@[name]),
    {
        proof {
            use_type_invariant(self);
            lemma_ascending_distinct(self.names@);
        }
        let names = self.names.clone();
        let values = self.values.clone();
        assert(names@ =~= self.names@);
        let copy = NameMap { names, values };
        assert(copy@.dom() =~= self@.dom());
        assert forall|name: Seq<char>| #[trigger] self@.contains_key(name) implies cloned(
            self@[name],
            copy@[name],
        ) by {
            let i = index_of_name(self.names@, name);
            lemma_zipped_at(self.names@, self.values@, i);
            lemma_zipped_at(copy.names@, copy.values@, i);
        }
        copy
    }
}

} // verus!
