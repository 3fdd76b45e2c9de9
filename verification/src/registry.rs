//! The context's registries: displays keyed by their identifier, and outputs, scenes and
//! filters looked up by name, the first registered one winning where names repeat.
use std::collections::HashMap;
use vstd::prelude::*;
use crate::text::str_eq;

verus! {

broadcast use vstd::std_specs::hash::group_hash_axioms;

/// The position of the first entry named `name`, if any.
pub open spec fn first_named<T>(entries: Seq<(Seq<char>, T)>, name: Seq<char>) -> Option<int>
    decreases entries.len(),
{
    if entries.len() == 0 {
        None
    } else {
        match first_named(entries.drop_last(), name) {
            Some(i) => Some(i),
            None => if entries.last().0 == name {
                Some(entries.len() - 1)
            } else {
                None
            },
        }
    }
}

proof fn lemma_first_named<T>(entries: Seq<(Seq<char>, T)>, name: Seq<char>)
    ensures
        first_named(entries, name) matches Some(i) ==> 0 <= i < entries.len() && entries[i].0 == name
            && forall|j: int| 0 <= j < i ==> (#[trigger] entries[j]).0 != name,
        first_named(entries, name) is None ==> forall|j: int|
            0 <= j < entries.len() ==> (#[trigger] entries[j]).0 != name,
    decreases entries.len(),
{
    if entries.len() > 0 {
        let rest = entries.drop_last();
        lemma_first_named(rest, name);
        assert forall|j: int| 0 <= j < rest.len() implies rest[j] == entries[j] by {}
    }
}

/// Named objects in registration order.
pub struct NamedRegistry<T> {
    names: Vec<String>,
    items: Vec<T>,
}

impl<T> View for NamedRegistry<T> {
    type V = Seq<(Seq<char>, T)>;

    closed spec fn view(&self) -> Seq<(Seq<char>, T)> {
        Seq::new(self.names@.len(), |i: int| (self.names@[i]@, self.items@[i]))
    }
}

impl<T> NamedRegistry<T> {
    /// The registry's two lists stay in step.
    pub closed spec fn well_formed(&self) -> bool {
        self.names@.len() == self.items@.len()
    }

    /// An empty registry.
    pub fn new() -> (r: Self)
        ensures
            r.well_formed(),
            r@ == Seq::<(Seq<char>, T)>::empty(),
    {
        NamedRegistry { names: Vec::new(), items: Vec::new() }
    }

    /// Registers `item` under `name`, after every registered object.
    pub fn add(&mut self, name: &str, item: T)
        requires
            old(self).well_formed(),
        ensures
            final(self).well_formed(),
            final(self)@ == old(self)@.push((name@, item)),
    {
        self.names.push(name.to_owned());
        self.items.push(item);
        proof {
            assert(self@ =~= old(self)@.push((name@, item)));
        }
    }

    /// The first registered object named `name`, if any.
    pub fn find(&self, name: &str) -> (r: Option<&T>)
        requires
            self.well_formed(),
        ensures
            r matches Some(x) ==> first_named(self@, name@) matches Some(i) && *x == self@[i].1,
            r is None <==> first_named(self@, name@) is None,
    {
        proof {
            lemma_first_named(self@, name@);
        }
        let mut i: usize = 0;
        while i < self.names.len()
            invariant
                self.well_formed(),
                i <= self.names@.len(),
                forall|j: int| 0 <= j < i ==> (#[trigger] self@[j]).0 != name@,
                first_named(self@, name@) matches Some(f) ==> 0 <= f < self@.len() && self@[f].0
                    == name@ && forall|j: int| 0 <= j < f ==> (#[trigger] self@[j]).0 != name@,
                first_named(self@, name@) is None ==> forall|j: int|
                    0 <= j < self@.len() ==> (#[trigger] self@[j]).0 != name@,
            decreases self.names.len() - i,
        {
            if str_eq(self.names[i].as_str(), name) {
                assert(self@[i as int].0 == name@);
                return Some(&self.items[i]);
            }
            assert(self@[i as int].0 != name@);
            i = i + 1;
        }
        None
    }

    /// The number of registered objects.
    pub fn len(&self) -> (r: usize)
        requires
            self.well_formed(),
        ensures
            r == self@.len(),
    {
        self.names.len()
    }
}

/// Looking up a name after registering an object under it finds the object registered
/// first under that name: an earlier one if there was one, else the new one.
pub proof fn law_find_after_add<T>(entries: Seq<(Seq<char>, T)>, name: Seq<char>, item: T)
    ensures
        first_named(entries.push((name, item)), name) == match first_named(entries, name) {
            Some(i) => Some(i),
            None => Some(entries.len() as int),
        },
{
    assert(entries.push((name, item)).drop_last() =~= entries);
}

/// Registering an object under one name leaves the lookup of every other name unchanged.
pub proof fn law_add_keeps_other_names<T>(entries: Seq<(Seq<char>, T)>, name: Seq<char>, item: T, other: Seq<char>)
    requires
        other != name,
    ensures
        first_named(entries.push((name, item)), other) == first_named(entries, other),
{
    assert(entries.push((name, item)).drop_last() =~= entries);
}

/// Displays keyed by their identifier.
pub struct DisplayRegistry<T> {
    displays: HashMap<usize, T>,
}

impl<T> View for DisplayRegistry<T> {
    type V = Map<usize, T>;

    closed spec fn view(&self) -> Map<usize, T> {
        self.displays@
    }
}

impl<T> DisplayRegistry<T> {
    /// An empty registry.
    pub fn new() -> (r: Self)
        ensures
            r@ == Map::<usize, T>::empty(),
    {
        DisplayRegistry { displays: HashMap::new() }
    }

    /// Registers `display` under `id`, replacing a display registered under it before.
    pub fn add(&mut self, id: usize, display: T)
        ensures
            final(self)@ == old(self)@.insert(id, display),
    {
        self.displays.insert(id, display);
    }

    /// Forgets the display registered under `id`, if any.
    pub fn remove(&mut self, id: usize)
        ensures
            final(self)@ == old(self)@.remove(id),
    {
        self.displays.remove(&id);
    }

    /// The display registered under `id`, if any.
    pub fn get(&self, id: usize) -> (r: Option<&T>)
        ensures
            r matches Some(x) ==> self@.contains_key(id) && *x == self@[id],
            r is None <==> !self@.contains_key(id),
    {
        self.displays.get(&id)
    }
}

} // verus!
