//! The copy-on-write vector itself: construction, the ownership queries and
//! transition, the read-only and mutating passthroughs, and the entry points
//! of the traversals.

use vstd::prelude::*;

use crate::content::CowVecContent;
use crate::content::CowVecMain;
use crate::content::copy_vec;
use crate::iter::CowVecIter;
use crate::visit::BorrowedFastForeachItem;
use crate::visit::OwnedForEachItem;
use crate::visit::may_skip;
use crate::visit::may_write;
use crate::visit::must_write;
use crate::visit::visited;

verus! {

/// Whether a wrapper handed out by a mutable traversal is still outstanding.
/// A new traversal may only start, and a traversal may only advance, while
/// the state is `Dead`.
pub(crate) enum WrapperState {
    Alive,
    Dead,
}

/// A copy-on-write wrapper around a vector.
///
/// Constructed from a vector of its own ([`CowVec::from_owned`]) or from a
/// shared reference to an external vector ([`CowVec::from`]). While borrowed,
/// every read goes straight to the external vector; the first write clones it,
/// after which [`CowVec::is_owned`] stays true. The external vector is never
/// modified.
pub struct CowVec<'extvec, T> {
    pub(crate) main: CowVecMain<'extvec, T>,
    pub(crate) bad_wrapper_use_detector: WrapperState,
}

impl<'extvec, T> View for CowVec<'extvec, T> {
    type V = Seq<T>;

    open(crate) spec fn view(&self) -> Seq<T> {
        self.main@
    }
}

impl<'extvec, T> CowVec<'extvec, T> {
    /// True iff the contents are owned rather than borrowed.
    pub open(crate) spec fn owned(&self) -> bool {
        self.main.owned()
    }

    /// True iff no wrapper handed out by a mutable traversal is outstanding.
    pub open(crate) spec fn guard_is_dead(&self) -> bool {
        self.bad_wrapper_use_detector is Dead
    }
}

impl<'extvec, T: Copy> CowVec<'extvec, T> {
    /// Creates a `CowVec` that borrows the given vector. The first write
    /// through the `CowVec` clones the borrowed vector, and every later
    /// access refers to the clone instead.
    pub fn from(vec: &'extvec Vec<T>) -> (r: CowVec<'extvec, T>)
        ensures
            r@ == vec@,
            !r.owned(),
            r.guard_is_dead(),
    {
        CowVec {
            main: CowVecMain { content: CowVecContent::Borrowed(vec) },
            bad_wrapper_use_detector: WrapperState::Dead,
        }
    }

    /// Creates a `CowVec` that owns the given vector outright.
    pub fn from_owned(vec: Vec<T>) -> (r: CowVec<'extvec, T>)
        ensures
            r@ == vec@,
            r.owned(),
            r.guard_is_dead(),
    {
        CowVec {
            main: CowVecMain { content: CowVecContent::Owned(vec) },
            bad_wrapper_use_detector: WrapperState::Dead,
        }
    }

    /// True iff the contents are owned. This tells whether the `CowVec`
    /// still borrows the vector it was constructed from.
    pub fn is_owned(&self) -> (b: bool)
        ensures
            b == self.owned(),
    {
        self.main.is_owned()
    }

    /// Immediately takes ownership: if the contents are still borrowed, the
    /// borrowed vector is cloned element by element. Idempotent; the contents
    /// are unchanged and the borrowed vector is untouched.
    pub fn ensure_owned(&mut self)
        ensures
            final(self)@ == old(self)@,
            final(self).owned(),
            final(self).guard_is_dead() == old(self).guard_is_dead(),
    {
        self.main.ensure_owned();
    }

    /// Consumes the `CowVec`, returning the owned contents (cloning first if
    /// they are still borrowed).
    pub fn into_owned(self) -> (v: Vec<T>)
        ensures
            v@ == self@,
    {
        match self.main.content {
            CowVecContent::Owned(v) => v,
            CowVecContent::Borrowed(v) => copy_vec(v),
        }
    }

    /// The number of elements; never takes ownership.
    pub fn len(&self) -> (n: usize)
        ensures
            n == self@.len(),
    {
        self.main.len()
    }

    /// Reads one element; never takes ownership.
    pub fn get(&self, i: usize) -> (x: T)
        requires
            i < self@.len(),
        ensures
            x == self@[i as int],
    {
        self.main.read(i)
    }

    /// A copy of the contents as a plain vector; never takes ownership.
    pub fn to_owned(&self) -> (v: Vec<T>)
        ensures
            v@ == self@,
    {
        match &self.main.content {
            CowVecContent::Owned(v) => copy_vec(v),
            CowVecContent::Borrowed(v) => copy_vec(*v),
        }
    }

    /// Appends an element. A mutating passthrough: it always takes ownership
    /// first.
    pub fn push(&mut self, value: T)
        ensures
            final(self)@ == old(self)@.push(value),
            final(self).owned(),
            final(self).guard_is_dead() == old(self).guard_is_dead(),
    {
        self.main.ensure_owned();
        self.main.push_owned(value);
    }

    /// Writes one element in place. A mutating passthrough: it always takes
    /// ownership first.
    pub fn set(&mut self, i: usize, value: T)
        requires
            i < old(self)@.len(),
        ensures
            final(self)@ == old(self)@.update(i as int, value),
            final(self).owned(),
            final(self).guard_is_dead() == old(self).guard_is_dead(),
    {
        self.main.ensure_owned();
        self.main.write(i, value);
    }

    /// Visits every element with the callback, cheaper than a full mutable
    /// traversal: since no wrapper escapes between elements, no per-step
    /// guard bookkeeping is needed. The callback is given each element and
    /// answers `Some(new)` to write `new` over it or `None` to leave it; the
    /// first write takes ownership, and a visit with no write leaves the
    /// contents borrowed. Returns the number of elements visited.
    pub fn fast_for_each_mut<F: Fn(T) -> Option<T>>(&mut self, f: F) -> (n: usize)
        requires
            forall|i: int| 0 <= i < old(self)@.len() ==> f.requires((old(self)@[i],)),
        ensures
            n == old(self)@.len(),
            final(self)@.len() == old(self)@.len(),
            final(self).guard_is_dead() == old(self).guard_is_dead(),
            forall|i: int|
                0 <= i < old(self)@.len() ==> visited(
                    f,
                    old(self)@[i],
                    #[trigger] final(self)@[i],
                ),
            old(self).owned() ==> final(self).owned(),
            !final(self).owned() ==> final(self)@ == old(self)@ && !old(self).owned(),
            final(self).owned() ==> old(self).owned() || exists|i: int|
                0 <= i < old(self)@.len() && may_write(f, #[trigger] old(self)@[i]),
            forall|i: int|
                0 <= i < old(self)@.len() && must_write(f, #[trigger] old(self)@[i])
                    ==> final(self).owned(),
    {
        let ghost orig = self@;
        let len = self.main.len();
        if !self.main.is_owned() {
            let mut state = BorrowedFastForeachItem { item: 0, end: len };
            while state.item < state.end
                invariant
                    state.end_pos() == orig.len(),
                    0 <= state.pos() <= state.end_pos(),
                    self@.len() == orig.len(),
                    self.guard_is_dead() == old(self).guard_is_dead(),
                    forall|i: int|
                        0 <= i < state.pos() ==> visited(f, orig[i], #[trigger] self@[i]),
                    forall|i: int| state.pos() <= i < orig.len() ==> self@[i] == orig[i],
                    !self.owned() ==> self@ == orig,
                    self.owned() ==> exists|i: int|
                        0 <= i < state.pos() && may_write(f, #[trigger] orig[i]),
                    !self.owned() ==> forall|i: int|
                        0 <= i < state.pos() ==> may_skip(f, #[trigger] orig[i]),
                    forall|i: int| 0 <= i < orig.len() ==> f.requires((orig[i],)),
                decreases state.end_pos() - state.pos(),
            {
                let x = state.read(&self.main);
                proof {
                    assert(f.requires((orig[state.pos()],)));
                }
                let res = f(x);
                match res {
                    Some(v) => {
                        state.write(&mut self.main, v);
                    },
                    None => {},
                }
                state.item = state.item + 1;
            }
            state.item
        } else {
            let mut state = OwnedForEachItem { item: 0 };
            while state.item < len
                invariant
                    len == orig.len(),
                    0 <= state.pos() <= len,
                    self@.len() == orig.len(),
                    self.owned(),
                    self.guard_is_dead() == old(self).guard_is_dead(),
                    forall|i: int|
                        0 <= i < state.pos() ==> visited(f, orig[i], #[trigger] self@[i]),
                    forall|i: int| state.pos() <= i < orig.len() ==> self@[i] == orig[i],
                    forall|i: int| 0 <= i < orig.len() ==> f.requires((orig[i],)),
                decreases len - state.pos(),
            {
                let x = state.read(&self.main);
                proof {
                    assert(f.requires((orig[state.pos()],)));
                }
                let res = f(x);
                match res {
                    Some(v) => {
                        state.write(&mut self.main, v);
                    },
                    None => {},
                }
                state.item = state.item + 1;
            }
            state.item
        }
    }

    /// Starts a mutable traversal without taking ownership. Only a write
    /// through one of the wrappers the traversal hands out clones the
    /// borrowed contents. The caller must have released every wrapper of any
    /// earlier traversal.
    pub fn iter_mut(&mut self) -> (it: CowVecIter)
        requires
            old(self).guard_is_dead(),
        ensures
            *final(self) == *old(self),
            it.pos() == 0,
            it.end_pos() == old(self)@.len(),
    {
        let end = self.main.len();
        CowVecIter { item: 0, end }
    }

    /// Starts a mutable traversal the eager way: takes ownership at once, so
    /// the traversal needs no transition bookkeeping at all. Always pays the
    /// clone, even when nothing is written.
    pub fn eager_cloned_iter_mut(&mut self) -> (it: CowVecIter)
        ensures
            final(self)@ == old(self)@,
            final(self).owned(),
            final(self).guard_is_dead() == old(self).guard_is_dead(),
            it.pos() == 0,
            it.end_pos() == old(self)@.len(),
    {
        self.main.ensure_owned();
        let end = self.main.len();
        CowVecIter { item: 0, end }
    }
}

} // verus!
