//! A keyed collection with a wrap-around selection cursor.

use vstd::prelude::*;
use vstd::hash_map::HashMapWithView;
use vstd::std_specs::hash::obeys_key_model;
use core::hash::Hash;

verus! {

/// A map of items together with a cursor over them, wrapping at both ends.
#[verifier::reject_recursive_types(K)]
#[verifier::reject_recursive_types(V)]
pub struct StatefulHashMap<K: View + Eq + Hash, V> {
    pub items: HashMapWithView<K, V>,
    pub selected: Option<usize>,
}

impl<K: View + Eq + Hash, V> StatefulHashMap<K, V> {
    /// The cursor points inside the collection.
    pub open spec fn wf(self) -> bool {
        match self.selected {
            Some(i) => i < self.items@.len(),
            None => true,
        }
    }

    /// An empty collection with no cursor.
    pub fn new() -> (r: StatefulHashMap<K, V>)
        requires
            obeys_key_model::<K>(),
            forall|k1: K, k2: K| k1@ == k2@ ==> k1 == k2,
        ensures
            r.wf(),
            r.items@ == Map::<K::V, V>::empty(),
            r.selected is None,
    {
        StatefulHashMap { items: HashMapWithView::new(), selected: None }
    }

    /// The given items with no cursor.
    pub fn with_items(items: HashMapWithView<K, V>) -> (r: StatefulHashMap<K, V>)
        ensures
            r.wf(),
            r.items == items,
            r.selected is None,
    {
        StatefulHashMap { items, selected: None }
    }

    /// Inserts one item under its key.
    pub fn push(&mut self, key: K, value: V)
        requires
            old(self).wf(),
            old(self).selected is Some ==> old(self).items@.contains_key(key@),
        ensures
            final(self).wf(),
            final(self).items@ == old(self).items@.insert(key@, value),
            final(self).selected == old(self).selected,
    {
        proof {
            if self.items@.contains_key(key@) {
                assert(self.items@.insert(key@, value).dom() =~= self.items@.dom());
            }
        }
        self.items.insert(key, value);
    }

    /// Moves the cursor to the next position, wrapping to the first; an unset
    /// cursor lands on the first position. Does nothing while empty.
    pub fn next(&mut self)
        requires
            old(self).wf(),
        ensures
            final(self).wf(),
            final(self).items == old(self).items,
            old(self).items@.len() == 0 ==> final(self).selected == old(self).selected,
            old(self).items@.len() > 0 ==> final(self).selected == Some(
                match old(self).selected {
                    Some(i) => if i + 1 >= old(self).items@.len() {
                        0usize
                    } else {
                        (i + 1) as usize
                    },
                    None => 0usize,
                },
            ),
    {
        if self.is_empty() {
            return ;
        }
        let n = self.items.len();
        let i = match self.selected {
            Some(i) => if i >= n - 1 {
                0
            } else {
                i + 1
            },
            None => 0,
        };
        self.selected = Some(i);
    }

    /// Moves the cursor to the previous position, wrapping to the last; an
    /// unset cursor lands on the first position. Does nothing while empty.
    pub fn previous(&mut self)
        requires
            old(self).wf(),
        ensures
            final(self).wf(),
            final(self).items == old(self).items,
            old(self).items@.len() == 0 ==> final(self).selected == old(self).selected,
            old(self).items@.len() > 0 ==> final(self).selected == Some(
                match old(self).selected {
                    Some(i) => if i == 0 {
                        (old(self).items@.len() - 1) as usize
                    } else {
                        (i - 1) as usize
                    },
                    None => 0usize,
                },
            ),
    {
        if self.is_empty() {
            return ;
        }
        let n = self.items.len();
        let i = match self.selected {
            Some(i) => if i == 0 {
                n - 1
            } else {
                i - 1
            },
            None => 0,
        };
        self.selected = Some(i);
    }

    /// Whether the collection has no items.
    pub fn is_empty(&self) -> (r: bool)
        ensures
            r == (self.items@.len() == 0),
    {
        self.items.len() == 0
    }
}

} // verus!
