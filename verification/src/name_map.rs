//! A small map from names to values, kept in ascending order of its names.
//!
//! The tables of a configuration file (providers, custom styles) and a snapshot
//! of the environment are such maps. Keeping the names in order makes every
//! listing deterministic and lets a listing double as the sorted key list.

use vstd::prelude::*;
use crate::text::{
    compare_names, lemma_name_less_transitive, lemma_name_order_trichotomy, name_less,
    names_ascending, texts_of, NameOrder,
};

verus! {

/// A map from names to values of type `V`.
///
/// Its view is the mathematical map from each name's text to its value.
#[derive(Debug)]
pub struct NameMap<V> {
    names: Vec<String>,
    values: Vec<V>,
}

impl<V> View for NameMap<V> {
    type V = Map<Seq<char>, V>;

    closed spec fn view(&self) -> Map<Seq<char>, V> {
        Map::new(
            |k: Seq<char>| self.names().contains(k),
            |k: Seq<char>| self.values@[position(self.names(), k)],
        )
    }
}

impl<V: Clone> Clone for NameMap<V> {
    /// A map with the same names, each with a clone of its value.
    fn clone(&self) -> (copy: Self)
        ensures
            copy.names() == self.names(),
            copy@.dom() == self@.dom(),
            forall|name: Seq<char>| #[trigger]
                self@.contains_key(name) ==> cloned(self@[name], copy@[name]),
    {
        proof {
            use_type_invariant(self);
        }
        let mut values: Vec<V> = Vec::new();
        let mut i: usize = 0;
        while i < self.values.len()
            invariant
                i <= self.values@.len(),
                values@.len() == i,
                forall|j: int| 0 <= j < i ==> cloned(self.values@[j], #[trigger] values@[j]),
            decreases self.values@.len() - i,
        {
            values.push(self.values[i].clone());
            i += 1;
        }
        let names = self.keys();
        assert(texts_of(names@).len() == names@.len());
        assert(self.names().len() == self.names@.len());
        let copy = NameMap { names, values };
        proof {
            assert(copy.names() == self.names());
            assert(copy@.dom() =~= self@.dom());
            assert forall|name: Seq<char>| #[trigger] self@.contains_key(name) implies cloned(
                self@[name],
                copy@[name],
            ) by {
                let p = position(self.names(), name);
                assert(0 <= p < self.names().len());
            }
        }
        copy
    }
}

/// Some position at which `name` stands in `names`, if it stands in it at all.
pub closed spec fn position(names: Seq<Seq<char>>, name: Seq<char>) -> int {
    choose|i: int| 0 <= i < names.len() && names[i] == name
}

proof fn lemma_position(names: Seq<Seq<char>>, i: int)
    requires
        names_ascending(names),
        0 <= i < names.len(),
    ensures
        position(names, names[i]) == i,
{
    let p = position(names, names[i]);
    if p < i {
        lemma_name_order_trichotomy(names[p], names[i]);
    } else if i < p {
        lemma_name_order_trichotomy(names[i], names[p]);
    }
}

impl<V> NameMap<V> {
    #[verifier::type_invariant]
    spec fn ordered(self) -> bool {
        &&& self.names@.len() == self.values@.len()
        &&& names_ascending(self.names())
    }

    /// The names of the map, in ascending order.
    pub closed spec fn names(self) -> Seq<Seq<char>> {
        texts_of(self.names@)
    }

    /// The names of the map are exactly the keys of its view.
    pub proof fn lemma_names_are_keys(self)
        ensures
            forall|k: Seq<char>| self.names().contains(k) <==> self@.contains_key(k),
    {
    }

    /// Creates an empty map.
    pub fn new() -> (map: Self)
        ensures
            map@ == Map::<Seq<char>, V>::empty(),
            map.names() == Seq::<Seq<char>>::empty(),
    {
        let map = NameMap { names: Vec::new(), values: Vec::new() };
        assert(map.names() =~= Seq::<Seq<char>>::empty());
        assert(map@ =~= Map::<Seq<char>, V>::empty());
        map
    }

    /// The number of entries.
    pub fn len(&self) -> (n: usize)
        ensures
            n == self.names().len(),
    {
        self.names.len()
    }

    /// Whether the map holds no entry.
    pub fn is_empty(&self) -> (empty: bool)
        ensures
            empty == (self.names().len() == 0),
            empty == (self@ == Map::<Seq<char>, V>::empty()),
    {
        let empty = self.names.len() == 0;
        proof {
            if empty {
                assert(self@ =~= Map::<Seq<char>, V>::empty());
            } else {
                assert(self.names().contains(self.names()[0]));
                assert(self@.contains_key(self.names()[0]));
            }
        }
        empty
    }

    /// The index of `name` among the names, or the index at which it would be
    /// inserted to keep them in order.
    fn locate(&self, name: &str) -> (found: (usize, bool))
        ensures
            found.0 <= self.names().len(),
            self.names().len() == self.values@.len(),
            names_ascending(self.names()),
            forall|i: int| 0 <= i < found.0 ==> name_less(#[trigger] self.names()[i], name@),
            found.1 ==> found.0 < self.names().len() && self.names()[found.0 as int] == name@,
            !found.1 ==> forall|i: int|
                found.0 <= i < self.names().len() ==> name_less(name@, #[trigger] self.names()[i]),
            found.1 == self.names().contains(name@),
    {
        proof {
            use_type_invariant(self);
        }
        let mut i: usize = 0;
        while i < self.names.len()
            invariant
                i <= self.names@.len(),
                self.names@.len() == self.values@.len(),
                names_ascending(self.names()),
                forall|j: int| 0 <= j < i ==> name_less(#[trigger] self.names()[j], name@),
            decreases self.names@.len() - i,
        {
            match compare_names(self.names[i].as_str(), name) {
                NameOrder::Before => {
                    i += 1;
                },
                NameOrder::Same => {
                    assert(self.names()[i as int] == name@);
                    return (i, true);
                },
                NameOrder::After => {
                    proof {
                        let names = self.names();
                        assert(name_less(name@, names[i as int]));
                        assert forall|j: int| i <= j < names.len() implies name_less(
                            name@,
                            #[trigger] names[j],
                        ) by {
                            if i < j {
                                lemma_name_less_transitive(name@, names[i as int], names[j]);
                            }
                        }
                        assert forall|j: int| 0 <= j < names.len() implies names[j] != name@ by {
                            if j < i {
                                lemma_name_order_trichotomy(names[j], name@);
                            } else {
                                lemma_name_order_trichotomy(name@, names[j]);
                            }
                        }
                    }
                    return (i, false);
                },
            }
        }
        proof {
            let names = self.names();
            assert forall|j: int| 0 <= j < names.len() implies names[j] != name@ by {
                lemma_name_order_trichotomy(names[j], name@);
            }
        }
        (i, false)
    }

    /// Whether the map has an entry under `name`.
    pub fn contains_key(&self, name: &str) -> (found: bool)
        ensures
            found == self@.contains_key(name@),
    {
        let (_, found) = self.locate(name);
        found
    }

    /// The value stored under `name`, if there is one.
    pub fn get(&self, name: &str) -> (value: Option<&V>)
        ensures
            value is Some <==> self@.contains_key(name@),
            value matches Some(v) ==> *v == self@[name@],
    {
        let (i, found) = self.locate(name);
        if found {
            proof {
                lemma_position(self.names(), i as int);
            }
            Some(&self.values[i])
        } else {
            None
        }
    }

    /// Stores `value` under `name` and returns the value that stood there before.
    pub fn insert(&mut self, name: String, value: V) -> (previous: Option<V>)
        ensures
            final(self)@ == old(self)@.insert(name@, value),
            previous is Some <==> old(self)@.contains_key(name@),
            previous matches Some(v) ==> v == old(self)@[name@],
    {
        let (i, found) = self.locate(name.as_str());
        let ghost before = *self;
        let mut taken = NameMap::new();
        core::mem::swap(self, &mut taken);
        let NameMap { names: mut name_list, values: mut value_list } = taken;
        if found {
            value_list.push(value);
            let previous = value_list.swap_remove(i);
            *self = NameMap { names: name_list, values: value_list };
            proof {
                lemma_position(before.names(), i as int);
                assert(self.names() == before.names());
                assert forall|k: Seq<char>| self@.contains_key(k) implies #[trigger] self@[k]
                    == before@.insert(name@, value)[k] by {
                    let p = position(self.names(), k);
                    lemma_position(self.names(), p);
                }
                assert(self@ =~= before@.insert(name@, value));
            }
            Some(previous)
        } else {
            let ghost text = name@;
            name_list.insert(i, name);
            value_list.insert(i, value);
            let ghost names = texts_of(name_list@);
            let ghost earlier = before.names();
            proof {
                assert(names =~= earlier.insert(i as int, text));
                assert forall|a: int, b: int| 0 <= a < b < names.len() implies name_less(
                    names[a],
                    names[b],
                ) by {
                    if b < i {
                        assert(names[a] == earlier[a] && names[b] == earlier[b]);
                    } else if b == i {
                        assert(names[a] == earlier[a]);
                    } else if a < i {
                        assert(names[a] == earlier[a] && names[b] == earlier[b - 1]);
                    } else if a == i {
                        assert(names[b] == earlier[b - 1]);
                    } else {
                        assert(names[a] == earlier[a - 1] && names[b] == earlier[b - 1]);
                    }
                }
            }
            *self = NameMap { names: name_list, values: value_list };
            proof {
                assert forall|k: Seq<char>| names.contains(k) <==> (k == text || earlier.contains(
                    k,
                )) by {
                    if names.contains(k) {
                        let p = choose|p: int| 0 <= p < names.len() && names[p] == k;
                        if p < i {
                            assert(earlier[p] == k);
                        } else if p > i {
                            assert(earlier[p - 1] == k);
                        }
                    }
                    if earlier.contains(k) {
                        let p = choose|p: int| 0 <= p < earlier.len() && earlier[p] == k;
                        if p < i {
                            assert(names[p] == k);
                        } else {
                            assert(names[p + 1] == k);
                        }
                    }
                    if k == text {
                        assert(names[i as int] == k);
                    }
                }
                assert forall|k: Seq<char>| self@.contains_key(k) implies #[trigger] self@[k]
                    == before@.insert(text, value)[k] by {
                    let p = position(names, k);
                    lemma_position(names, p);
                    if p < i {
                        lemma_position(earlier, p);
                    } else if p > i {
                        lemma_position(earlier, p - 1);
                    }
                }
                assert(self@ =~= before@.insert(text, value));
            }
            None
        }
    }

    /// Removes the entry under `name` and returns its value, if there was one.
    pub fn remove(&mut self, name: &str) -> (removed: Option<V>)
        ensures
            final(self)@ == old(self)@.remove(name@),
            removed is Some <==> old(self)@.contains_key(name@),
            removed matches Some(v) ==> v == old(self)@[name@],
    {
        let (i, found) = self.locate(name);
        let ghost before = *self;
        if found {
            let mut taken = NameMap::new();
            core::mem::swap(self, &mut taken);
            let NameMap { names: mut name_list, values: mut value_list } = taken;
            name_list.remove(i);
            let removed = value_list.remove(i);
            let ghost names = texts_of(name_list@);
            let ghost earlier = before.names();
            proof {
                lemma_position(earlier, i as int);
                assert(names =~= earlier.remove(i as int));
                assert forall|a: int, b: int| 0 <= a < b < names.len() implies name_less(
                    names[a],
                    names[b],
                ) by {
                    let a0 = if a < i { a } else { a + 1 };
                    let b0 = if b < i { b } else { b + 1 };
                    assert(names[a] == earlier[a0] && names[b] == earlier[b0]);
                }
            }
            *self = NameMap { names: name_list, values: value_list };
            proof {
                assert forall|k: Seq<char>| names.contains(k) <==> (k != name@ && earlier.contains(
                    k,
                )) by {
                    if names.contains(k) {
                        let p = choose|p: int| 0 <= p < names.len() && names[p] == k;
                        let p0 = if p < i { p } else { p + 1 };
                        assert(earlier[p0] == k);
                        if p0 < i {
                            lemma_name_order_trichotomy(earlier[p0], earlier[i as int]);
                        } else {
                            lemma_name_order_trichotomy(earlier[i as int], earlier[p0]);
                        }
                    }
                    if k != name@ && earlier.contains(k) {
                        let p = choose|p: int| 0 <= p < earlier.len() && earlier[p] == k;
                        if p < i {
                            assert(names[p] == k);
                        } else {
                            assert(names[p - 1] == k);
                        }
                    }
                }
                assert forall|k: Seq<char>| self@.contains_key(k) implies #[trigger] self@[k]
                    == before@.remove(name@)[k] by {
                    let p = position(names, k);
                    lemma_position(names, p);
                    let p0 = if p < i { p } else { p + 1 };
                    lemma_position(earlier, p0);
                }
                assert(self@ =~= before@.remove(name@));
            }
            Some(removed)
        } else {
            assert(self@ =~= before@.remove(name@));
            None
        }
    }

    /// The name at position `i` of the ascending order.
    pub fn name_at(&self, i: usize) -> (name: &String)
        requires
            i < self.names().len(),
        ensures
            name@ == self.names()[i as int],
            self@.contains_key(name@),
    {
        assert(self.names().contains(self.names()[i as int]));
        &self.names[i]
    }

    /// The value stored under the name at position `i` of the ascending order.
    pub fn value_at(&self, i: usize) -> (value: &V)
        requires
            i < self.names().len(),
        ensures
            self@.contains_key(self.names()[i as int]),
            *value == self@[self.names()[i as int]],
    {
        proof {
            use_type_invariant(self);
            lemma_position(self.names(), i as int);
            assert(self.names().contains(self.names()[i as int]));
        }
        &self.values[i]
    }

    /// The names of the map in ascending order, each of them once.
    pub fn keys(&self) -> (keys: Vec<String>)
        ensures
            texts_of(keys@) == self.names(),
            names_ascending(self.names()),
            forall|k: Seq<char>| self.names().contains(k) <==> self@.contains_key(k),
    {
        proof {
            use_type_invariant(self);
        }
        let mut keys: Vec<String> = Vec::new();
        let mut i: usize = 0;
        while i < self.names.len()
            invariant
                i <= self.names@.len(),
                texts_of(keys@) == self.names().take(i as int),
            decreases self.names@.len() - i,
        {
            let ghost listed = texts_of(keys@);
            keys.push(self.names[i].clone());
            assert(texts_of(keys@) =~= listed.push(self.names@[i as int]@));
            assert(self.names().take(i + 1) =~= self.names().take(i as int).push(
                self.names()[i as int],
            ));
            i += 1;
        }
        assert(self.names().take(i as int) =~= self.names());
        keys
    }
}

} // verus!
