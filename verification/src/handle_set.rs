//! A set of handles in insertion order.
use crate::ids::{DrillHoleRef, LayerId, RasterTextureId, SceneEntityId, TieInRef};
use vstd::prelude::*;

verus! {

/// A small copyable identity that can be compared for being the same.
pub trait Handle: Copy {
    fn same(&self, other: &Self) -> (r: bool)
        ensures
            r == (*self == *other),
    ;
}

impl Handle for SceneEntityId {
    fn same(&self, other: &Self) -> (r: bool) {
        *self == *other
    }
}

impl Handle for DrillHoleRef {
    fn same(&self, other: &Self) -> (r: bool) {
        *self == *other
    }
}

impl Handle for TieInRef {
    fn same(&self, other: &Self) -> (r: bool) {
        *self == *other
    }
}

impl Handle for LayerId {
    fn same(&self, other: &Self) -> (r: bool) {
        *self == *other
    }
}

impl Handle for RasterTextureId {
    fn same(&self, other: &Self) -> (r: bool) {
        *self == *other
    }
}

/// A set of handles. Nothing occurs twice; what was inserted first comes first.
#[derive(Debug)]
pub struct HandleSet<T: Handle> {
    items: Vec<T>,
}

impl<T: Handle> View for HandleSet<T> {
    type V = Set<T>;

    closed spec fn view(&self) -> Set<T> {
        self.items@.to_set()
    }
}

impl<T: Handle> HandleSet<T> {
    #[verifier::type_invariant]
    spec fn distinct(self) -> bool {
        self.items@.no_duplicates()
    }

    pub fn new() -> (r: HandleSet<T>)
        ensures
            r@ == Set::<T>::empty(),
    {
        let r = HandleSet { items: Vec::new() };
        assert(r@ =~= Set::<T>::empty());
        r
    }

    /// The handles, each once.
    pub fn as_vec(&self) -> (r: &Vec<T>)
        ensures
            r@.no_duplicates(),
            r@.to_set() == self@,
            self@.finite(),
            r@.len() == self@.len(),
    {
        proof {
            use_type_invariant(self);
            self.items@.unique_seq_to_set();
            vstd::seq_lib::seq_to_set_is_finite(self.items@);
        }
        &self.items
    }

    pub fn len(&self) -> (r: usize)
        ensures
            r == self@.len(),
            self@.finite(),
    {
        self.as_vec().len()
    }

    pub fn is_empty(&self) -> (r: bool)
        ensures
            r == (self@ == Set::<T>::empty()),
            r == (self@.len() == 0),
    {
        let items = self.as_vec();
        proof {
            if items@.len() == 0 {
                assert(self@ =~= Set::<T>::empty());
            } else {
                assert(items@.to_set().contains(items@[0]));
            }
        }
        items.len() == 0
    }

    fn position(items: &Vec<T>, handle: T) -> (r: Option<usize>)
        ensures
            r matches Some(i) ==> i < items@.len() && items@[i as int] == handle,
            r is None ==> !items@.contains(handle),
    {
        let mut i: usize = 0;
        while i < items.len()
            invariant
                i <= items@.len(),
                forall|j: int| 0 <= j < i ==> items@[j] != handle,
            decreases items@.len() - i,
        {
            if items[i].same(&handle) {
                return Some(i);
            }
            i = i + 1;
        }
        None
    }

    pub fn contains(&self, handle: T) -> (r: bool)
        ensures
            r == self@.contains(handle),
    {
        match Self::position(&self.items, handle) {
            Some(i) => {
                assert(self.items@.contains(self.items@[i as int]));
                true
            },
            None => false,
        }
    }

    /// Put a handle in; whether it was not there before.
    pub fn insert(&mut self, handle: T) -> (r: bool)
        ensures
            final(self)@ == old(self)@.insert(handle),
            r == !old(self)@.contains(handle),
    {
        proof {
            use_type_invariant(&*self);
        }
        let ghost before = self.items@;
        if self.contains(handle) {
            assert(self@.insert(handle) =~= self@);
            false
        } else {
            let mut items: Vec<T> = Vec::new();
            std::mem::swap(&mut items, &mut self.items);
            items.push(handle);
            proof {
                assert(!before.contains(handle));
                assert(items@.no_duplicates());
                assert(items@.to_set() =~= before.to_set().insert(handle)) by {
                    assert forall|x: T| items@.to_set().contains(x) <==> before.to_set().insert(handle).contains(x) by {
                        if before.contains(x) {
                            let i = choose|i: int| 0 <= i < before.len() && before[i] == x;
                            assert(items@[i] == x);
                        }
                        if x == handle {
                            assert(items@[before.len() as int] == x);
                        }
                    }
                }
            }
            self.items = items;
            true
        }
    }

    /// Take a handle out; whether it was there.
    pub fn remove(&mut self, handle: T) -> (r: bool)
        ensures
            final(self)@ == old(self)@.remove(handle),
            r == old(self)@.contains(handle),
    {
        proof {
            use_type_invariant(&*self);
        }
        let ghost before = self.items@;
        match Self::position(&self.items, handle) {
            Some(i) => {
                let mut items: Vec<T> = Vec::new();
                std::mem::swap(&mut items, &mut self.items);
                items.remove(i);
                proof {
                    assert(before[i as int] == handle);
                    assert(items@ =~= before.remove(i as int));
                    assert(items@.no_duplicates()) by {
                        assert forall|a: int, b: int| 0 <= a < b < items@.len() implies items@[a] != items@[b] by {
                            let p = if a < i { a } else { a + 1 };
                            let q = if b < i { b } else { b + 1 };
                            assert(before[p] != before[q]);
                        }
                    }
                    assert forall|x: T| items@.to_set().contains(x) <==> before.to_set().remove(handle).contains(x) by {
                        if items@.contains(x) {
                            let a = choose|a: int| 0 <= a < items@.len() && items@[a] == x;
                            let p = if a < i { a } else { a + 1 };
                            assert(before[p] == x);
                            assert(before[p] != before[i as int]);
                        }
                        if before.contains(x) && x != handle {
                            let a = choose|a: int| 0 <= a < before.len() && before[a] == x;
                            let p = if a < i { a } else { a - 1 };
                            assert(items@[p] == x);
                        }
                    }
                    assert(items@.to_set() =~= before.to_set().remove(handle));
                }
                self.items = items;
                true
            },
            None => {
                assert(self@.remove(handle) =~= self@);
                false
            },
        }
    }

    pub fn clear(&mut self)
        ensures
            final(self)@ == Set::<T>::empty(),
    {
        let items: Vec<T> = Vec::new();
        self.items = items;
        assert(self@ =~= Set::<T>::empty());
    }

    /// Put every handle of the other set in.
    pub fn extend_from(&mut self, other: &HandleSet<T>)
        ensures
            final(self)@ == old(self)@.union(other@),
    {
        let items = other.as_vec();
        let ghost before = self@;
        let mut i: usize = 0;
        assert(self@ =~= before.union(items@.take(0).to_set()));
        while i < items.len()
            invariant
                i <= items@.len(),
                self@ == before.union(items@.take(i as int).to_set()),
            decreases items@.len() - i,
        {
            self.insert(items[i]);
            proof {
                let prefix = items@.take(i as int);
                let next = items@.take(i + 1);
                assert(next =~= prefix.push(items@[i as int]));
                assert forall|x: T| next.to_set().contains(x) <==> prefix.to_set().insert(items@[i as int]).contains(x) by {
                    if prefix.contains(x) {
                        let k = choose|k: int| 0 <= k < prefix.len() && prefix[k] == x;
                        assert(next[k] == x);
                    }
                    if x == items@[i as int] {
                        assert(next[i as int] == x);
                    }
                }
                assert(self@ =~= before.union(next.to_set()));
            }
            i = i + 1;
        }
        assert(items@.take(i as int) =~= items@);
    }
}

impl HandleSet<DrillHoleRef> {
    /// Take out every hole of one dataset.
    pub fn remove_dataset(&mut self, dataset: crate::ids::DrillHoleId)
        ensures
            final(self)@ == old(self)@.filter(|hole: DrillHoleRef| hole.dataset != dataset),
    {
        let mut kept: HandleSet<DrillHoleRef> = HandleSet::new();
        let items = self.as_vec();
        let ghost all = items@;
        let mut i: usize = 0;
        assert(kept@ =~= all.take(0).to_set().filter(|hole: DrillHoleRef| hole.dataset != dataset));
        while i < items.len()
            invariant
                i <= items@.len(),
                all == items@,
                kept@ == all.take(i as int).to_set().filter(|hole: DrillHoleRef| hole.dataset != dataset),
            decreases items@.len() - i,
        {
            let hole = items[i];
            if hole.dataset != dataset {
                kept.insert(hole);
            }
            proof {
                let prefix = all.take(i as int);
                let next = all.take(i + 1);
                assert(next =~= prefix.push(hole));
                assert forall|x: DrillHoleRef| next.to_set().contains(x) <==> prefix.to_set().insert(hole).contains(x) by {
                    if prefix.contains(x) {
                        let k = choose|k: int| 0 <= k < prefix.len() && prefix[k] == x;
                        assert(next[k] == x);
                    }
                    if x == hole {
                        assert(next[i as int] == x);
                    }
                }
                assert(kept@ =~= next.to_set().filter(|hole: DrillHoleRef| hole.dataset != dataset));
            }
            i = i + 1;
        }
        assert(all.take(i as int) =~= all);
        *self = kept;
    }
}

} // verus!
