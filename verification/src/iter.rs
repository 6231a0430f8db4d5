//! The guarded mutable traversal: a cursor over the remaining range, and the
//! per-element wrapper that can read one element, write it (taking ownership
//! on the first write), and release itself so the traversal may advance.

use vstd::prelude::*;

use crate::cow::CowVec;
use crate::cow::WrapperState;
use crate::visit::may_skip;
use crate::visit::may_write;
use crate::visit::must_write;
use crate::visit::visited;

verus! {

/// A mutable traversal over a [`CowVec`]: the pair of the next position and
/// the end position of the remaining range. Each step hands out one
/// [`CowVecItemWrapper`], which must be released before the next step.
pub struct CowVecIter {
    pub(crate) item: usize,
    pub(crate) end: usize,
}

/// One element being visited: the return value of [`CowVecIter::next`] and
/// [`CowVecIter::nth`]. It can read its element, write it — cloning the
/// borrowed contents first if need be — and must be released before the
/// traversal goes on.
///
/// Its position is kept as the distance from the traversal's end, the
/// encoding that stays meaningful across the borrowed-to-owned transition:
/// cloning preserves the length, so the end is the stable anchor.
pub struct CowVecItemWrapper {
    pub(crate) dist_from_end: usize,
    pub(crate) owned: bool,
}

impl CowVecIter {
    /// The position of the next element to visit.
    pub open(crate) spec fn pos(&self) -> int {
        self.item as int
    }

    /// The position one past the last element to visit.
    pub open(crate) spec fn end_pos(&self) -> int {
        self.end as int
    }

    /// The traversal describes a range of the given `CowVec`: it was started
    /// on it (or on one with contents of the same length) and has not
    /// overrun it.
    pub open spec fn valid_for<'extvec, T>(&self, cow: &CowVec<'extvec, T>) -> bool {
        0 <= self.pos() <= self.end_pos() && self.end_pos() == cow@.len()
    }

    /// The number of elements not yet visited. Consumes the traversal.
    pub fn count(self) -> (n: usize)
        requires
            self.pos() <= self.end_pos(),
        ensures
            n == self.end_pos() - self.pos(),
    {
        self.end - self.item
    }

    /// Lower and upper bound on the number of elements not yet visited; both
    /// are exact.
    pub fn size_hint(&self) -> (r: (usize, Option<usize>))
        requires
            self.pos() <= self.end_pos(),
        ensures
            r.0 == self.end_pos() - self.pos(),
            r.1 == Some(r.0),
    {
        let n = self.end - self.item;
        (n, Some(n))
    }

    /// Yields a wrapper for the next element and advances past it, or yields
    /// nothing when the range is exhausted. Never takes ownership. The
    /// wrapper of the previous step must have been released.
    pub fn next<'extvec, T: Copy>(&mut self, cow: &mut CowVec<'extvec, T>) -> (r: Option<
        CowVecItemWrapper,
    >)
        requires
            old(self).valid_for(&*old(cow)),
            old(cow).guard_is_dead(),
        ensures
            final(cow)@ == old(cow)@,
            final(cow).owned() == old(cow).owned(),
            final(self).end_pos() == old(self).end_pos(),
            old(self).pos() == old(self).end_pos() ==> r is None
                && final(self).pos() == old(self).pos()
                && final(cow).guard_is_dead(),
            old(self).pos() < old(self).end_pos() ==> (r matches Some(w)
                && w.dist() == old(self).end_pos() - old(self).pos()
                && w.owned_mode() == old(cow).owned()
                && final(self).pos() == old(self).pos() + 1
                && !final(cow).guard_is_dead()),
    {
        if self.item == self.end {
            return None;
        }
        let dist_from_end = self.end - self.item;
        let owned = cow.is_owned();
        cow.bad_wrapper_use_detector = WrapperState::Alive;
        self.item = self.item + 1;
        Some(CowVecItemWrapper { dist_from_end, owned })
    }

    /// Skips `n` elements, then yields a wrapper for the one after them and
    /// advances past it; yields nothing, and stays put, when fewer than
    /// `n + 1` elements remain. Behaves like `n + 1` calls of
    /// [`CowVecIter::next`] of which only the last hands its wrapper out.
    pub fn nth<'extvec, T: Copy>(&mut self, cow: &mut CowVec<'extvec, T>, n: usize) -> (r: Option<
        CowVecItemWrapper,
    >)
        requires
            old(self).valid_for(&*old(cow)),
            old(cow).guard_is_dead(),
        ensures
            final(cow)@ == old(cow)@,
            final(cow).owned() == old(cow).owned(),
            final(self).end_pos() == old(self).end_pos(),
            n >= old(self).end_pos() - old(self).pos() ==> r is None
                && final(self).pos() == old(self).pos()
                && final(cow).guard_is_dead(),
            n < old(self).end_pos() - old(self).pos() ==> (r matches Some(w)
                && w.dist() == old(self).end_pos() - (old(self).pos() + n)
                && w.owned_mode() == old(cow).owned()
                && final(self).pos() == old(self).pos() + n + 1
                && !final(cow).guard_is_dead()),
    {
        let remaining = self.end - self.item;
        if n >= remaining {
            return None;
        }
        self.item = self.item + n;
        let dist_from_end = self.end - self.item;
        let owned = cow.is_owned();
        cow.bad_wrapper_use_detector = WrapperState::Alive;
        self.item = self.item + 1;
        Some(CowVecItemWrapper { dist_from_end, owned })
    }

    /// Visits the remaining elements in order, one wrapper per element,
    /// produced and released again before the traversal advances — the same
    /// per-step discipline as [`CowVecIter::next`]. The callback is given
    /// each element and answers `Some(new)` to write `new` over it or `None`
    /// to leave it; the first write takes ownership. Returns the number of
    /// elements visited.
    pub fn for_each<'extvec, T: Copy, F: Fn(T) -> Option<T>>(
        self,
        cow: &mut CowVec<'extvec, T>,
        f: F,
    ) -> (n: usize)
        requires
            self.valid_for(&*old(cow)),
            old(cow).guard_is_dead(),
            forall|i: int|
                self.pos() <= i < self.end_pos() ==> f.requires((old(cow)@[i],)),
        ensures
            n == self.end_pos() - self.pos(),
            final(cow)@.len() == old(cow)@.len(),
            final(cow).guard_is_dead(),
            forall|i: int| 0 <= i < self.pos() ==> final(cow)@[i] == old(cow)@[i],
            forall|i: int|
                self.pos() <= i < self.end_pos() ==> visited(
                    f,
                    old(cow)@[i],
                    #[trigger] final(cow)@[i],
                ),
            old(cow).owned() ==> final(cow).owned(),
            !final(cow).owned() ==> final(cow)@ == old(cow)@ && !old(cow).owned(),
            final(cow).owned() ==> old(cow).owned() || exists|i: int|
                self.pos() <= i < self.end_pos() && may_write(f, #[trigger] old(cow)@[i]),
            forall|i: int|
                self.pos() <= i < self.end_pos() && must_write(f, #[trigger] old(cow)@[i])
                    ==> final(cow).owned(),
    {
        let ghost orig = cow@;
        let ghost orig_owned = cow.owned();
        let ghost start = self.pos();
        let mut it = self;
        let mut n: usize = 0;
        while it.item < it.end
            invariant
                it.end_pos() == self.end_pos(),
                start == self.pos(),
                start <= it.pos() <= it.end_pos(),
                it.end_pos() == orig.len(),
                n == it.pos() - start,
                cow@.len() == orig.len(),
                cow.guard_is_dead(),
                forall|i: int| 0 <= i < start ==> cow@[i] == orig[i],
                forall|i: int| start <= i < it.pos() ==> visited(f, orig[i], #[trigger] cow@[i]),
                forall|i: int| it.pos() <= i < it.end_pos() ==> cow@[i] == orig[i],
                orig_owned ==> cow.owned(),
                !cow.owned() ==> cow@ == orig && !orig_owned,
                cow.owned() ==> orig_owned || exists|i: int|
                    start <= i < it.pos() && may_write(f, #[trigger] orig[i]),
                !cow.owned() ==> forall|i: int|
                    start <= i < it.pos() ==> may_skip(f, #[trigger] orig[i]),
                forall|i: int| start <= i < it.end_pos() ==> f.requires((orig[i],)),
            decreases it.end_pos() - it.pos(),
        {
            let ghost prev = it.pos();
            let w_opt = it.next(cow);
            let mut w = w_opt.unwrap();
            let x = w.read(cow);
            proof {
                assert(x == orig[prev]);
                assert(f.requires((orig[prev],)));
            }
            let res = f(x);
            match res {
                Some(v) => {
                    w.write(cow, v);
                },
                None => {},
            }
            w.release(cow);
            n = n + 1;
        }
        n
    }
}

impl CowVecItemWrapper {
    /// The distance from the traversal's end position: a wrapper for the last
    /// element has distance 1.
    pub open(crate) spec fn dist(&self) -> int {
        self.dist_from_end as int
    }

    /// Whether the contents were already owned when the wrapper was created;
    /// a write through such a wrapper skips the transition outright.
    pub open(crate) spec fn owned_mode(&self) -> bool {
        self.owned
    }

    /// The position of the wrapper's element in a `CowVec` of the given
    /// length.
    pub open spec fn index_in(&self, len: int) -> int {
        len - self.dist()
    }

    /// Reads the element; never takes ownership.
    pub fn read<'extvec, T: Copy>(&self, cow: &CowVec<'extvec, T>) -> (x: T)
        requires
            1 <= self.dist() <= cow@.len(),
        ensures
            x == cow@[self.index_in(cow@.len() as int)],
    {
        let i = cow.len() - self.dist_from_end;
        cow.get(i)
    }

    /// Writes the element. If the contents are still borrowed, they are
    /// cloned first and the wrapper relocates itself onto the clone: the
    /// element's position is recomputed from the distance to the end, which
    /// the clone preserves. Later writes through the same wrapper skip the
    /// transition.
    pub fn write<'extvec, T: Copy>(&mut self, cow: &mut CowVec<'extvec, T>, value: T)
        requires
            1 <= old(self).dist() <= old(cow)@.len(),
            old(self).owned_mode() ==> old(cow).owned(),
        ensures
            final(cow)@ == old(cow)@.update(old(self).index_in(old(cow)@.len() as int), value),
            final(cow).owned(),
            final(cow).guard_is_dead() == old(cow).guard_is_dead(),
            final(self).dist() == old(self).dist(),
            final(self).owned_mode(),
    {
        if !self.owned {
            cow.main.ensure_owned();
            self.owned = true;
        }
        let i = cow.main.len() - self.dist_from_end;
        cow.main.write(i, value);
    }

    /// Releases the wrapper, allowing the traversal that handed it out to
    /// advance, or a new traversal to start.
    pub fn release<'extvec, T>(self, cow: &mut CowVec<'extvec, T>)
        ensures
            final(cow)@ == old(cow)@,
            final(cow).owned() == old(cow).owned(),
            final(cow).guard_is_dead(),
    {
        cow.bad_wrapper_use_detector = WrapperState::Dead;
    }
}

} // verus!
