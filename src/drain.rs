//! The draining cursor of [`StackVec`](crate::StackVec).
use vstd::prelude::*;

use vstd::seq_lib::lemma_multiset_commutative;

verus! {

/// A cursor that removes the range `[start, end)` of a vector's storage.
///
/// It works on the storage alone, so it serves a [`StackVec`](crate::StackVec)
/// of any capacity alike.
///
/// While it lives, the vector holds only `[0, start)`: the removed range and the
/// tail `[end, len)` are owned by the cursor, so nothing else can see them.
/// Elements are pulled out by value from either end. [`Drain::discard`] puts
/// the tail back behind the head and drops what was never pulled. A cursor that
/// is dropped without being discarded drops the tail along with the rest of the
/// range, and the vector keeps `[0, start)`.
pub struct Drain<'a, T> {
    /// Index in the original vector where the preserved tail began.
    tail_start: usize,
    /// Number of preserved tail elements.
    tail_len: usize,
    /// The removed elements not yet pulled, front first.
    iter: Vec<T>,
    /// The preserved tail, held aside until the cursor is discarded.
    tail: Vec<T>,
    /// The storage being drained.
    vec: &'a mut Vec<T>,
    /// The vector's elements when the cursor was made.
    original: Ghost<Seq<T>>,
    /// Start of the removed range.
    start: Ghost<nat>,
    /// Elements pulled so far from the front.
    front: Ghost<nat>,
    /// Elements pulled so far from the back.
    back: Ghost<nat>,
}

impl<'a, T> Drain<'a, T> {
    /// The storage being drained.
    pub closed spec fn target(&self) -> &'a mut Vec<T> {
        self.vec
    }

    /// The vector's elements when the cursor was made.
    pub closed spec fn original(&self) -> Seq<T> {
        self.original@
    }

    /// Start of the removed range.
    pub closed spec fn range_start(&self) -> nat {
        self.start@
    }

    /// End of the removed range.
    pub closed spec fn range_end(&self) -> nat {
        self.tail_start as nat
    }

    /// Elements pulled so far from the front.
    pub closed spec fn pulled_front(&self) -> nat {
        self.front@
    }

    /// Elements pulled so far from the back.
    pub closed spec fn pulled_back(&self) -> nat {
        self.back@
    }

    /// The removed elements not yet pulled, front first.
    pub closed spec fn remaining(&self) -> Seq<T> {
        self.iter@
    }

    /// The whole removed range.
    pub open spec fn removed(&self) -> Seq<T> {
        self.original().subrange(self.range_start() as int, self.range_end() as int)
    }

    /// What the vector holds once the cursor is discarded.
    pub open spec fn restored(&self) -> Seq<T> {
        cut(self.original(), self.range_start(), self.range_end())
    }

    /// The cursor's invariant.
    pub closed spec fn wf(&self) -> bool {
        let len = self.original@.len();
        let start = self.start@;
        let end = self.tail_start as nat;
        &&& start <= end <= len
        &&& self.vec@ == self.original@.subrange(0, start as int)
        &&& self.tail@ == self.original@.subrange(end as int, len as int)
        &&& self.tail_len == self.tail@.len()
        &&& self.front@ + self.back@ <= end - start
        &&& self.iter@ == self.original@.subrange(
            (start + self.front@) as int,
            end - self.back@,
        )
    }

    pub(crate) fn new(vec: &'a mut Vec<T>, start: usize, end: usize) -> (d: Self)
        requires
            start <= end <= old(vec)@.len(),
        ensures
            d.wf(),
            d.original() == old(vec)@,
            d.range_start() == start,
            d.range_end() == end,
            d.pulled_front() == 0,
            d.pulled_back() == 0,
            d.remaining() == old(vec)@.subrange(start as int, end as int),
            *final(vec) == *final(d.target()),
    {
        let ghost original = vec@;
        let mut iter = vec.split_off(start);
        let tail = iter.split_off(end - start);
        let tail_len = tail.len();
        assert(iter@ =~= original.subrange(start as int, end as int));
        assert(tail@ =~= original.subrange(end as int, original.len() as int));
        Drain {
            tail_start: end,
            tail_len,
            iter,
            tail,
            vec,
            original: Ghost(original),
            start: Ghost(start as nat),
            front: Ghost(0),
            back: Ghost(0),
        }
    }
}

impl<'a, T> Drain<'a, T> {
    /// The removed elements not yet pulled, as a slice.
    #[must_use]
    pub fn as_slice(&self) -> (r: &[T])
        ensures
            r@ == self.remaining(),
    {
        self.iter.as_slice()
    }

    /// How many removed elements are left to pull.
    pub fn len(&self) -> (r: usize)
        ensures
            r == self.remaining().len(),
    {
        self.iter.len()
    }

    /// The exact number of elements left, as a lower and an upper bound.
    pub fn size_hint(&self) -> (r: (usize, Option<usize>))
        ensures
            r.0 == self.remaining().len(),
            r.1 == Some(r.0),
    {
        let n = self.iter.len();
        (n, Some(n))
    }

    /// Pulls the front element of what remains of the range.
    pub fn next(&mut self) -> (r: Option<T>)
        requires
            old(self).wf(),
        ensures
            final(self).wf(),
            final(self).target() == old(self).target(),
            final(self).original() == old(self).original(),
            final(self).range_start() == old(self).range_start(),
            final(self).range_end() == old(self).range_end(),
            final(self).pulled_back() == old(self).pulled_back(),
            old(self).remaining().len() > 0 ==> {
                &&& r == Some(old(self).remaining()[0])
                &&& final(self).remaining() == old(self).remaining().drop_first()
                &&& final(self).pulled_front() == old(self).pulled_front() + 1
            },
            old(self).remaining().len() == 0 ==> {
                &&& r is None
                &&& final(self).remaining() == old(self).remaining()
                &&& final(self).pulled_front() == old(self).pulled_front()
            },
    {
        if self.iter.len() > 0 {
            let x = self.iter.remove(0);
            self.front = Ghost(self.front@ + 1);
            proof {
                let o = self.original@;
                let lo = self.start@ + self.front@;
                assert(self.iter@ =~= o.subrange(lo as int, self.tail_start - self.back@));
            }
            Some(x)
        } else {
            None
        }
    }

    /// Pulls the back element of what remains of the range.
    pub fn next_back(&mut self) -> (r: Option<T>)
        requires
            old(self).wf(),
        ensures
            final(self).wf(),
            final(self).target() == old(self).target(),
            final(self).original() == old(self).original(),
            final(self).range_start() == old(self).range_start(),
            final(self).range_end() == old(self).range_end(),
            final(self).pulled_front() == old(self).pulled_front(),
            old(self).remaining().len() > 0 ==> {
                &&& r == Some(old(self).remaining().last())
                &&& final(self).remaining() == old(self).remaining().drop_last()
                &&& final(self).pulled_back() == old(self).pulled_back() + 1
            },
            old(self).remaining().len() == 0 ==> {
                &&& r is None
                &&& final(self).remaining() == old(self).remaining()
                &&& final(self).pulled_back() == old(self).pulled_back()
            },
    {
        let r = self.iter.pop();
        if r.is_some() {
            self.back = Ghost(self.back@ + 1);
            proof {
                let o = self.original@;
                let lo = self.start@ + self.front@;
                assert(self.iter@ =~= o.subrange(lo as int, self.tail_start - self.back@));
            }
        }
        r
    }

    /// Puts the tail back behind the head, then drops the elements not pulled.
    ///
    /// The tail goes back first, so the vector is whole again before any
    /// element's drop runs. Elements move as values, so a type that takes no
    /// space needs no path of its own.
    fn restore(&mut self)
        ensures
            *final(final(self).target()) == *final(old(self).target()),
            final(self).remaining().len() == 0,
            old(self).wf() ==> (*final(self).target())@ == old(self).restored(),
    {
        if self.tail_len > 0 {
            self.vec.append(&mut self.tail);
            self.tail_len = 0;
        }
        if self.iter.len() > 0 {
            self.iter.clear();
        }
    }

    /// Discards the cursor: the vector ends up with the removed range taken
    /// out, whatever was pulled, and every element not pulled is dropped.
    pub fn discard(self)
        requires
            self.wf(),
        ensures
            (*final(self.target()))@ == self.restored(),
    {
        let mut d = self;
        d.restore();
    }
}

/// Once every element of the range has been pulled, or only some of them, or
/// none, discarding leaves the vector as it was before the drain with the range
/// `[start, end)` taken out, the rest in order.
pub proof fn lemma_discard_removes_range<'a, T>(d: &Drain<'a, T>)
    requires
        d.wf(),
    ensures
        d.range_start() <= d.range_end() <= d.original().len(),
        d.restored().len() == d.original().len() - (d.range_end() - d.range_start()),
        forall|i: int| 0 <= i < d.range_start() ==> d.restored()[i] == d.original()[i],
        forall|i: int|
            d.range_start() <= i < d.restored().len() ==> d.restored()[i] == d.original()[i
                + (d.range_end() - d.range_start())],
{
}

/// Two cursors over the same range of the same vector leave the same vector
/// when discarded, however many elements each pulled, and from which ends.
pub proof fn lemma_discard_ignores_pulls<'a, 'b, T>(a: &Drain<'a, T>, b: &Drain<'b, T>)
    requires
        a.wf(),
        b.wf(),
        a.original() == b.original(),
        a.range_start() == b.range_start(),
        a.range_end() == b.range_end(),
    ensures
        a.restored() == b.restored(),
{
}

/// The front pulls hand out the removed range from the left, the back pulls
/// from the right, and what is left lies between them: together they are the
/// range, each element once.
pub proof fn lemma_pulls_partition_range<'a, T>(d: &Drain<'a, T>)
    requires
        d.wf(),
    ensures
        d.pulled_front() + d.pulled_back() <= d.removed().len(),
        d.remaining() == d.removed().subrange(
            d.pulled_front() as int,
            d.removed().len() - d.pulled_back(),
        ),
        d.removed() == d.removed().take(d.pulled_front() as int) + d.remaining()
            + d.removed().skip(d.removed().len() - d.pulled_back()),
        d.removed().to_multiset() == d.removed().take(d.pulled_front() as int).to_multiset().add(
            d.remaining().to_multiset(),
        ).add(d.removed().skip(d.removed().len() - d.pulled_back()).to_multiset()),
{
    let r = d.removed();
    let f = r.take(d.pulled_front() as int);
    let b = r.skip(r.len() - d.pulled_back());
    assert(d.remaining() =~= r.subrange(d.pulled_front() as int, r.len() - d.pulled_back()));
    assert(r =~= f + d.remaining() + b);
    lemma_multiset_commutative(f, d.remaining());
    lemma_multiset_commutative(f + d.remaining(), b);
}

/// Every removed element is either handed out by a pull or still held for
/// discard to drop, never both, so `end - start` of them are dropped in all;
/// the vector loses exactly that many. This holds for every element type,
/// those that take no space included.
pub proof fn lemma_each_removed_element_once<'a, T>(d: &Drain<'a, T>)
    requires
        d.wf(),
    ensures
        d.pulled_front() + d.pulled_back() + d.remaining().len() == d.range_end()
            - d.range_start(),
        d.restored().len() == d.original().len() - (d.range_end() - d.range_start()),
{
}

/// Draining an empty range leaves the vector as it was.
pub proof fn lemma_empty_range_keeps_vector<'a, T>(d: &Drain<'a, T>)
    requires
        d.wf(),
        d.range_start() == d.range_end(),
    ensures
        d.restored() == d.original(),
{
    assert(d.restored() =~= d.original());
}

/// `s` with the range `[start, end)` taken out.
pub open spec fn cut<T>(s: Seq<T>, start: nat, end: nat) -> Seq<T> {
    s.subrange(0, start as int) + s.subrange(end as int, s.len() as int)
}

} // verus!
