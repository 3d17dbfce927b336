//! A cursor-addressed buffer: a fixed-identity sequence of copyable values
//! with one movable read/write cursor.
//!
//! The buffer is intentionally dumb: it performs no bounds checks of its
//! own beyond what its contracts demand of the caller.  The execution
//! engine layers all domain rules (tape bounds, program termination) on
//! top of it.

use vstd::prelude::*;

verus! {

/// A sequence of values together with a cursor, initially 0.
pub struct PointedVec<T> {
    /// The underlying values.
    pub v: Vec<T>,
    /// The cursor: an index into `v`.
    pub index: usize,
}

impl<T: Copy> PointedVec<T> {
    /// Wraps a vector, placing the cursor on its first element.
    pub fn new(v: Vec<T>) -> (r: PointedVec<T>)
        ensures
            r.v@ == v@,
            r.index == 0,
    {
        PointedVec { v, index: 0 }
    }

    /// Moves the cursor one position to the right.  Bounds are the
    /// caller's responsibility; only the machine limit is required here.
    pub fn right(&mut self)
        requires
            old(self).index < usize::MAX,
        ensures
            final(self).v@ == old(self).v@,
            final(self).index == old(self).index + 1,
    {
        self.index = self.index + 1;
    }

    /// Moves the cursor one position to the left.  The caller must keep
    /// the cursor from moving below 0.
    pub fn left(&mut self)
        requires
            old(self).index >= 1,
        ensures
            final(self).v@ == old(self).v@,
            final(self).index == old(self).index - 1,
    {
        self.index = self.index - 1;
    }

    /// Returns the value at the cursor.
    pub fn read(&self) -> (r: T)
        requires
            self.index < self.v@.len(),
        ensures
            r == self.v@[self.index as int],
    {
        self.v[self.index]
    }

    /// Replaces the value at the cursor.
    pub fn update(&mut self, value: T)
        requires
            old(self).index < old(self).v@.len(),
        ensures
            final(self).v@ == old(self).v@.update(old(self).index as int, value),
            final(self).index == old(self).index,
    {
        self.v.set(self.index, value);
    }

    /// Reads the value at an absolute position, independent of the cursor;
    /// exposed for diagnostics and testing.
    pub fn at(&self, i: usize) -> (r: T)
        requires
            i < self.v@.len(),
        ensures
            r == self.v@[i as int],
    {
        self.v[i]
    }

    /// Writes the value at an absolute position, independent of the
    /// cursor; exposed for diagnostics and testing.
    pub fn put_at(&mut self, i: usize, value: T)
        requires
            i < old(self).v@.len(),
        ensures
            final(self).v@ == old(self).v@.update(i as int, value),
            final(self).index == old(self).index,
    {
        self.v.set(i, value);
    }
}

} // verus!
