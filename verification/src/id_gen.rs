//! ID generation utilities.

use vstd::prelude::*;

verus! {

/// Manages the allocation of unique 64-bit IDs, handing them out in
/// order starting from 0.
#[derive(Debug, Clone, Copy, PartialEq, Eq, Structural)]
pub struct Gen {
    id: u64,
}

impl Gen {
    /// The ID the next allocation will return.
    pub closed spec fn spec_next(self) -> u64 {
        self.id
    }

    /// Allocates a new identifier and advances the generator.  The
    /// generator must not be exhausted.
    pub fn allocate_id(&mut self) -> (r: u64)
        requires
            old(self).spec_next() < u64::MAX,
        ensures
            r == old(self).spec_next(),
            final(self).spec_next() == old(self).spec_next() + 1,
    {
        let id = self.id;
        self.id = self.id + 1;
        id
    }
}

impl Default for Gen {
    /// A fresh generator starts at 0.
    fn default() -> (r: Self)
        ensures
            r.spec_next() == 0,
    {
        Gen { id: 0 }
    }
}

/// Manages allocation of numeric IDs from an inclusive range, recycling
/// freed IDs before fresh ones.
#[derive(Debug)]
pub struct IdAllocator {
    next: u64,
    max: u64,
    free: Vec<u64>,
}

impl IdAllocator {
    /// The next fresh (never-recycled) ID, if any is left.
    pub closed spec fn spec_next(self) -> u64 {
        self.next
    }

    /// The largest ID this allocator may hand out.
    pub closed spec fn spec_max(self) -> u64 {
        self.max
    }

    /// The queue of freed IDs, oldest first.
    pub closed spec fn spec_free(self) -> Seq<u64> {
        self.free@
    }

    /// Creates a new `IdAllocator` that will assign IDs between `min`
    /// and `max`, both inclusive.
    pub fn new(min: u64, max: u64) -> (r: IdAllocator)
        requires
            max < u64::MAX,
        ensures
            r.spec_next() == min,
            r.spec_max() == max,
            r.spec_free() == Seq::<u64>::empty(),
    {
        IdAllocator { next: min, max, free: Vec::new() }
    }

    /// Allocates a new ID: the oldest freed ID if one is waiting, else
    /// the next fresh one.
    ///
    /// Returns `None` if the allocator is exhausted.
    pub fn allocate(&mut self) -> (r: Option<u64>)
        requires
            old(self).spec_max() < u64::MAX,
        ensures
            final(self).spec_max() == old(self).spec_max(),
            old(self).spec_free().len() > 0 ==> {
                &&& r == Some(old(self).spec_free()[0])
                &&& final(self).spec_free() == old(self).spec_free().skip(1)
                &&& final(self).spec_next() == old(self).spec_next()
            },
            old(self).spec_free().len() == 0 && old(self).spec_next() > old(self).spec_max()
                ==> r is None && *final(self) == *old(self),
            old(self).spec_free().len() == 0 && old(self).spec_next() <= old(self).spec_max()
                ==> {
                &&& r == Some(old(self).spec_next())
                &&& final(self).spec_next() == old(self).spec_next() + 1
                &&& final(self).spec_free() == old(self).spec_free()
            },
    {
        if self.free.len() > 0 {
            let id = self.free.remove(0);
            Some(id)
        } else {
            let id = self.next;
            if id > self.max {
                None
            } else {
                self.next = self.next + 1;
                Some(id)
            }
        }
    }

    /// Releases an ID back to the pool.
    ///
    /// The allocator does not check that `id` came from this allocator or
    /// that it is not already free; freeing a foreign or doubly-freed ID
    /// makes later allocations repeat it.
    pub fn free(&mut self, id: u64)
        ensures
            final(self).spec_free() == old(self).spec_free().push(id),
            final(self).spec_next() == old(self).spec_next(),
            final(self).spec_max() == old(self).spec_max(),
    {
        self.free.push(id);
    }
}

} // verus!
