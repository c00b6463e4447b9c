//! A sequence container with a fixed maximum capacity `N`.
use vstd::prelude::*;

use crate::drain::Drain;

verus! {

/// A vector that never holds more than `N` elements.
pub struct StackVec<T, const N: usize> {
    pub(crate) buf: Vec<T>,
}

impl<T, const N: usize> StackVec<T, N> {
    /// The elements, in order.
    pub closed spec fn view(&self) -> Seq<T> {
        self.buf@
    }

    /// The length never exceeds the capacity.
    pub open spec fn wf(&self) -> bool {
        self@.len() <= N
    }

    /// An empty vector.
    pub fn new() -> (r: Self)
        ensures
            r.wf(),
            r@ == Seq::<T>::empty(),
    {
        StackVec { buf: Vec::new() }
    }

    /// Takes the elements of `v`, in order; `None` when there are more than `N`.
    pub fn from_vec(v: Vec<T>) -> (r: Option<Self>)
        ensures
            r is Some <==> v@.len() <= N,
            r matches Some(s) ==> s.wf() && s@ == v@,
    {
        if v.len() <= N {
            Some(StackVec { buf: v })
        } else {
            None
        }
    }

    /// The maximum number of elements.
    pub fn capacity(&self) -> (r: usize)
        ensures
            r == N,
    {
        N
    }

    /// The number of elements.
    pub fn len(&self) -> (r: usize)
        ensures
            r == self@.len(),
    {
        self.buf.len()
    }

    /// Whether there are no elements.
    pub fn is_empty(&self) -> (r: bool)
        ensures
            r <==> self@.len() == 0,
    {
        self.buf.len() == 0
    }

    /// The elements, as a slice.
    pub fn as_slice(&self) -> (r: &[T])
        ensures
            r@ == self@,
    {
        self.buf.as_slice()
    }

    /// Appends `x`; hands it back when the vector is full.
    pub fn push(&mut self, x: T) -> (r: Result<(), T>)
        requires
            old(self).wf(),
        ensures
            final(self).wf(),
            old(self)@.len() < N ==> r is Ok && final(self)@ == old(self)@.push(x),
            old(self)@.len() >= N ==> r == Err::<(), T>(x) && final(self)@ == old(self)@,
    {
        if self.buf.len() < N {
            self.buf.push(x);
            Ok(())
        } else {
            Err(x)
        }
    }

    /// Removes and returns the element at `index`, shifting the later ones down.
    pub fn remove(&mut self, index: usize) -> (r: T)
        requires
            old(self).wf(),
            index < old(self)@.len(),
        ensures
            final(self).wf(),
            r == old(self)@[index as int],
            final(self)@ == old(self)@.remove(index as int),
    {
        self.buf.remove(index)
    }

    /// Starts draining the elements `[start, end)`.
    ///
    /// While the cursor lives the vector holds only `[0, start)`; discarding the
    /// cursor gives it back its tail `[end, len)`.
    pub fn drain(&mut self, start: usize, end: usize) -> (d: Drain<'_, T>)
        requires
            old(self).wf(),
            start <= end <= old(self)@.len(),
        ensures
            d.wf(),
            d.original() == old(self)@,
            d.range_start() == start,
            d.range_end() == end,
            d.pulled_front() == 0,
            d.pulled_back() == 0,
            d.remaining() == old(self)@.subrange(start as int, end as int),
            final(self)@ == (*final(d.target()))@,
    {
        Drain::new(&mut self.buf, start, end)
    }
}

} // verus!
