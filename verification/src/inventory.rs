//! A generic storage bin for the workshop inventory, walked by a hand-written iterator that
//! keeps its own position.

use vstd::prelude::*;

verus! {

/// A bin of inventory items, in the order they were added.
pub struct StorageBin<T> {
    items: Vec<T>,
}

impl<T> StorageBin<T> {
    /// The items, in the order they were added.
    pub closed spec fn view(&self) -> Seq<T> {
        self.items@
    }

    /// An empty bin.
    pub fn new() -> (b: StorageBin<T>)
        ensures
            b.view() == Seq::<T>::empty(),
    {
        StorageBin { items: Vec::new() }
    }

    /// Puts an item in the bin, after the others.
    pub fn add(&mut self, item: T)
        ensures
            final(self).view() == old(self).view().push(item),
    {
        self.items.push(item);
    }

    /// The number of items.
    pub fn len(&self) -> (n: usize)
        ensures
            n == self.view().len(),
    {
        self.items.len()
    }

    /// A walk over the items, first added first.
    pub fn iter(&self) -> (it: StorageBinIter<'_, T>)
        ensures
            it.remaining() == self.view(),
    {
        StorageBinIter { container: self.items.as_slice(), index: 0 }
    }
}

impl<T> Default for StorageBin<T> {
    /// An empty bin.
    fn default() -> (b: StorageBin<T>)
        ensures
            b.view() == Seq::<T>::empty(),
    {
        StorageBin::new()
    }
}

/// A walk over a bin's items that tracks its position by hand.
pub struct StorageBinIter<'a, T> {
    container: &'a [T],
    index: usize,
}

impl<'a, T> StorageBinIter<'a, T> {
    #[verifier::type_invariant]
    closed spec fn inv(&self) -> bool {
        self.index <= self.container@.len()
    }

    /// The items still to come.
    pub closed spec fn remaining(&self) -> Seq<T> {
        self.container@.subrange(self.index as int, self.container@.len() as int)
    }

    /// The next item, if any is left.
    pub fn next(&mut self) -> (r: Option<&'a T>)
        ensures
            old(self).remaining().len() == 0 ==> r is None && final(self).remaining() == old(self).remaining(),
            old(self).remaining().len() > 0 ==> r == Some(&old(self).remaining()[0])
                && final(self).remaining() == old(self).remaining().drop_first(),
    {
        proof {
            use_type_invariant(&*self);
        }
        if self.index < self.container.len() {
            let item = &self.container[self.index];
            let ghost before = self.remaining();
            *self = StorageBinIter { container: self.container, index: self.index + 1 };
            assert(self.remaining() =~= before.drop_first());
            Some(item)
        } else {
            None
        }
    }
}

} // verus!
