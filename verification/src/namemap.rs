//! A small map keyed by name, kept in insertion order.
//!
//! Sessions, ballots and stored records are all looked up by a user or channel
//! name. The map holds each name at most once, and contracts speak of it as two
//! sequences of equal length: the names, and the item held under each.

use vstd::prelude::*;
use crate::text::{position, texts};

verus! {

/// A map from names to items of one type.
#[derive(Debug, PartialEq, Eq)]
pub struct NameMap<T> {
    names: Vec<String>,
    items: Vec<T>,
}

impl<T> NameMap<T> {
    /// The names, in insertion order.
    pub closed spec fn keys(&self) -> Seq<Seq<char>> {
        texts(self.names@)
    }

    /// The items, each at the position of its name.
    pub closed spec fn values(&self) -> Seq<T> {
        self.items@
    }

    /// No name occurs twice, and each name has its item.
    pub open spec fn wf(&self) -> bool {
        &&& self.keys().len() == self.values().len()
        &&& self.keys().no_duplicates()
    }

    /// Whether the map holds `name`.
    pub open spec fn has(&self, name: Seq<char>) -> bool {
        self.keys().contains(name)
    }

    /// The position of `name`, where the map holds it.
    pub open spec fn slot(&self, name: Seq<char>) -> int {
        self.keys().index_of(name)
    }

    /// The item held under `name`, where the map holds it.
    pub open spec fn at(&self, name: Seq<char>) -> T {
        self.values()[self.slot(name)]
    }

    /// In a well-formed map a name determines its position.
    pub proof fn slot_is_unique(&self, name: Seq<char>, i: int)
        requires
            self.wf(),
            0 <= i < self.keys().len(),
            self.keys()[i] == name,
        ensures
            self.has(name),
            self.slot(name) == i,
    {
    }

    /// A map that holds nothing.
    pub fn new() -> (m: Self)
        ensures
            m.wf(),
            m.keys() == Seq::<Seq<char>>::empty(),
            m.values() == Seq::<T>::empty(),
    {
        let m = NameMap { names: Vec::new(), items: Vec::new() };
        m
    }

    /// How many names the map holds.
    pub fn len(&self) -> (n: usize)
        requires
            self.wf(),
        ensures
            n == self.keys().len(),
            n == self.values().len(),
    {
        self.items.len()
    }

    /// Whether the map holds nothing.
    pub fn is_empty(&self) -> (r: bool)
        requires
            self.wf(),
        ensures
            r == (self.keys().len() == 0),
    {
        self.items.len() == 0
    }

    /// The position of `name`, if the map holds it.
    pub fn find(&self, name: &str) -> (r: Option<usize>)
        requires
            self.wf(),
        ensures
            match r {
                Some(i) => self.has(name@) && i == self.slot(name@) && i < self.keys().len(),
                None => !self.has(name@),
            },
    {
        let r = position(&self.names, name);
        proof {
            if let Some(i) = r {
                self.slot_is_unique(name@, i as int);
            }
        }
        r
    }

    /// Whether the map holds `name`.
    pub fn contains_key(&self, name: &str) -> (r: bool)
        requires
            self.wf(),
        ensures
            r == self.has(name@),
    {
        self.find(name).is_some()
    }

    /// The name at a position.
    pub fn key(&self, i: usize) -> (r: &String)
        requires
            self.wf(),
            i < self.keys().len(),
        ensures
            r@ == self.keys()[i as int],
    {
        &self.names[i]
    }

    /// The item at a position.
    pub fn item(&self, i: usize) -> (r: &T)
        requires
            self.wf(),
            i < self.values().len(),
        ensures
            *r == self.values()[i as int],
    {
        &self.items[i]
    }

    /// The item at a position, to change it in place.
    pub fn item_mut(&mut self, i: usize) -> (r: &mut T)
        requires
            old(self).wf(),
            i < old(self).values().len(),
        ensures
            *r == old(self).values()[i as int],
            final(self).keys() == old(self).keys(),
            final(self).values() == old(self).values().update(i as int, *final(r)),
            final(self).wf(),
    {
        &mut self.items[i]
    }

    /// Two maps with the same names, whose items differ at most at one
    /// position, hold the same item under every name but the one at that
    /// position.
    pub proof fn same_elsewhere(&self, other: &Self, i: int)
        requires
            self.wf(),
            other.wf(),
            self.keys() == other.keys(),
            0 <= i < self.keys().len(),
            forall|j: int| 0 <= j < self.values().len() && j != i ==> self.values()[j] == other.values()[j],
        ensures
            forall|name: Seq<char>| self.has(name) == other.has(name),
            forall|name: Seq<char>|
                self.has(name) && name != self.keys()[i] ==> #[trigger] self.at(name) == other.at(name),
            self.has(self.keys()[i]),
            self.slot(self.keys()[i]) == i,
    {
        self.slot_is_unique(self.keys()[i], i);
    }

    /// Replaces the item at a position.
    pub fn set(&mut self, i: usize, item: T)
        requires
            old(self).wf(),
            i < old(self).values().len(),
        ensures
            final(self).wf(),
            final(self).keys() == old(self).keys(),
            final(self).values() == old(self).values().update(i as int, item),
    {
        self.items[i] = item;
    }

    /// Puts `item` under `name`: in place of the item that `name` had, or
    /// else at the end.
    pub fn insert(&mut self, name: &str, item: T)
        requires
            old(self).wf(),
        ensures
            final(self).wf(),
            final(self).has(name@),
            final(self).at(name@) == item,
            old(self).has(name@) ==> {
                &&& final(self).keys() == old(self).keys()
                &&& final(self).values() == old(self).values().update(old(self).slot(name@), item)
            },
            !old(self).has(name@) ==> {
                &&& final(self).keys() == old(self).keys().push(name@)
                &&& final(self).values() == old(self).values().push(item)
            },
            forall|other: Seq<char>|
                other != name@ ==> (#[trigger] final(self).has(other) == old(self).has(other)),
            forall|other: Seq<char>|
                other != name@ && old(self).has(other) ==> #[trigger] final(self).at(other) == old(
                    self,
                ).at(other),
    {
        match self.find(name) {
            Some(i) => {
                self.items[i] = item;
                proof {
                    self.slot_is_unique(name@, i as int);
                }
            },
            None => {
                let owned = name.to_owned();
                proof {
                    assert(texts(self.names@.push(owned)) =~= texts(self.names@).push(name@));
                }
                let ghost before = *self;
                self.names.push(owned);
                self.items.push(item);
                proof {
                    self.slot_is_unique(name@, self.names.len() - 1);
                    assert forall|other: Seq<char>| other != name@ implies (#[trigger] self.has(
                        other,
                    ) == before.has(other)) by {
                        if self.has(other) {
                            let a = self.slot(other);
                            assert(before.keys()[a] == other);
                        }
                        if before.has(other) {
                            let a = before.slot(other);
                            assert(self.keys()[a] == other);
                        }
                    }
                    assert forall|other: Seq<char>|
                        other != name@ && before.has(other) implies #[trigger] self.at(other)
                        == before.at(other) by {
                        let a = before.slot(other);
                        self.slot_is_unique(other, a);
                    }
                }
            },
        }
    }

    /// Takes `name` and its item out, keeping the order of the rest.
    pub fn remove(&mut self, name: &str) -> (r: Option<T>)
        requires
            old(self).wf(),
        ensures
            final(self).wf(),
            !final(self).has(name@),
            match r {
                Some(item) => {
                    &&& old(self).has(name@)
                    &&& item == old(self).at(name@)
                    &&& final(self).keys() == old(self).keys().remove(old(self).slot(name@))
                    &&& final(self).values() == old(self).values().remove(old(self).slot(name@))
                },
                None => {
                    &&& !old(self).has(name@)
                    &&& final(self).keys() == old(self).keys()
                    &&& final(self).values() == old(self).values()
                },
            },
            forall|other: Seq<char>|
                other != name@ ==> (#[trigger] final(self).has(other) == old(self).has(other)),
            forall|other: Seq<char>|
                other != name@ && old(self).has(other) ==> #[trigger] final(self).at(other) == old(
                    self,
                ).at(other),
    {
        match self.find(name) {
            Some(i) => {
                let ghost before = self.keys();
                let ghost was = *self;
                self.names.remove(i);
                let item = self.items.remove(i);
                proof {
                    assert forall|other: Seq<char>| other != name@ implies (#[trigger] self.has(
                        other,
                    ) == was.has(other)) by {
                        if self.has(other) {
                            let a = self.slot(other);
                            let a0 = if a < i { a } else { a + 1 };
                            assert(texts(self.names@)[a] == before[a0]);
                        }
                        if was.has(other) {
                            let a0 = was.slot(other);
                            let a = if a0 < i { a0 } else { a0 - 1 };
                            assert(texts(self.names@)[a] == before[a0]);
                        }
                    }
                    assert(self.keys() =~= before.remove(i as int));
                    if self.keys().contains(name@) {
                        let a = choose|a: int| 0 <= a < self.keys().len() && self.keys()[a] == name@;
                        let a0 = if a < i { a } else { a + 1 };
                        assert(before[a0] == name@);
                    }
                    assert forall|other: Seq<char>|
                        other != name@ && was.has(other) implies #[trigger] self.at(other)
                        == was.at(other) by {
                        let a0 = was.slot(other);
                        let a = if a0 < i { a0 } else { a0 - 1 };
                        self.slot_is_unique(other, a);
                    }
                }
                Some(item)
            },
            None => None,
        }
    }

    /// Empties the map.
    pub fn clear(&mut self)
        ensures
            final(self).wf(),
            final(self).keys() == Seq::<Seq<char>>::empty(),
            final(self).values() == Seq::<T>::empty(),
    {
        self.names.clear();
        self.items.clear();
    }
}

} // verus!
