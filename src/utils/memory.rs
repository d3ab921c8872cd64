use vstd::prelude::*;

verus! {

/// Byte accounting for buffers: what is allocated now, and the most ever allocated at once.
pub struct Memory {
    allocated: usize,
    peak: usize,
}

impl Memory {
    pub closed spec fn allocated_spec(&self) -> nat {
        self.allocated as nat
    }

    pub closed spec fn peak_spec(&self) -> nat {
        self.peak as nat
    }

    /// Nothing allocated.
    pub fn new() -> (r: Memory)
        ensures
            r.allocated_spec() == 0,
            r.peak_spec() == 0,
    {
        Memory { allocated: 0, peak: 0 }
    }

    /// Records `size` more bytes in use, raising the peak when it is passed.
    pub fn allocate(&mut self, size: usize)
        requires
            old(self).allocated_spec() + size <= usize::MAX,
        ensures
            final(self).allocated_spec() == old(self).allocated_spec() + size,
            final(self).peak_spec() == if final(self).allocated_spec() > old(self).peak_spec() {
                final(self).allocated_spec()
            } else {
                old(self).peak_spec()
            },
    {
        let new_allocated: usize = self.allocated + size;
        self.allocated = new_allocated;
        if new_allocated > self.peak {
            self.peak = new_allocated;
        }
    }

    /// Records `size` bytes released; releasing more than is allocated leaves zero.
    pub fn deallocate(&mut self, size: usize)
        ensures
            final(self).allocated_spec() == if size <= old(self).allocated_spec() {
                (old(self).allocated_spec() - size) as nat
            } else {
                0
            },
            final(self).peak_spec() == old(self).peak_spec(),
    {
        if size <= self.allocated {
            self.allocated = self.allocated - size;
        } else {
            self.allocated = 0;
        }
    }

    /// Bytes in use.
    pub fn allocated(&self) -> (r: usize)
        ensures
            r == self.allocated_spec(),
    {
        self.allocated
    }

    /// The most bytes in use at once.
    pub fn peak(&self) -> (r: usize)
        ensures
            r == self.peak_spec(),
    {
        self.peak
    }
}

} // verus!
