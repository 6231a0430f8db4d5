//! The bulk visitor's vocabulary and per-element state: what a callback may
//! do to one element, and the two cheap wrappers the bulk traversal steps
//! through — one that still checks for the borrowed-to-owned transition, one
//! for contents that are already owned.

use vstd::prelude::*;

use crate::content::CowVecMain;

verus! {

/// The element a visit leaves behind: the written value where the callback
/// asked for a write, the old element where it did not.
pub open spec fn apply_write<T>(x: T, r: Option<T>) -> T {
    match r {
        Option::Some(v) => v,
        Option::None => x,
    }
}

/// `y` is a possible outcome of visiting the element `x` with the callback
/// `f`: some return of `f` on `x` leaves `y` behind.
pub open spec fn visited<T, F: Fn(T) -> Option<T>>(f: F, x: T, y: T) -> bool {
    exists|r: Option<T>| #[trigger] f.ensures((x,), r) && y == apply_write(x, r)
}

/// Visiting `x` with `f` may end in a write.
pub open spec fn may_write<T, F: Fn(T) -> Option<T>>(f: F, x: T) -> bool {
    exists|r: Option<T>| #[trigger] f.ensures((x,), r) && r is Some
}

/// Visiting `x` with `f` may end without a write.
pub open spec fn may_skip<T, F: Fn(T) -> Option<T>>(f: F, x: T) -> bool {
    exists|r: Option<T>| #[trigger] f.ensures((x,), r) && r is None
}

/// Visiting `x` with `f` always ends in a write.
pub open spec fn must_write<T, F: Fn(T) -> Option<T>>(f: F, x: T) -> bool {
    !may_skip(f, x)
}

/// Where the callback's contract pins its return on `x` to exactly `r`, the
/// element a visit leaves behind is pinned too: a traversal of the container
/// and the same writes applied to a plain vector in lockstep leave equal
/// elements behind.
pub proof fn lemma_visited_determined<T, F: Fn(T) -> Option<T>>(f: F, x: T, y: T, r: Option<T>)
    requires
        visited(f, x, y),
        forall|r2: Option<T>| #[trigger] f.ensures((x,), r2) ==> r2 == r,
    ensures
        y == apply_write(x, r),
{
}

/// Lockstep equivalence of a whole traversal: where the callback's contract
/// pins its return to `spec_f`, contents of length `before.len()` whose every
/// element was visited — as the traversals' contracts state — equal the
/// sequence got by applying the same writes to an independent copy of
/// `before`, element for element.
pub proof fn lemma_visit_lockstep<T, F: Fn(T) -> Option<T>>(
    f: F,
    before: Seq<T>,
    after: Seq<T>,
    spec_f: spec_fn(T) -> Option<T>,
)
    requires
        after.len() == before.len(),
        forall|i: int| 0 <= i < before.len() ==> visited(f, before[i], #[trigger] after[i]),
        forall|x: T, r: Option<T>| #[trigger] f.ensures((x,), r) ==> r == spec_f(x),
    ensures
        forall|i: int|
            0 <= i < before.len() ==> #[trigger] after[i] == apply_write(
                before[i],
                spec_f(before[i]),
            ),
{
    assert forall|i: int| 0 <= i < before.len() implies #[trigger] after[i] == apply_write(
        before[i],
        spec_f(before[i]),
    ) by {
        lemma_visited_determined(f, before[i], after[i], spec_f(before[i]));
    }
}

/// Marker for the per-element state the bulk visitor steps through.
pub trait FastForeachItem {

}

/// The bulk visitor's per-element state while the contents may still be
/// borrowed: a write takes ownership first and then relocates this state onto
/// the clone, recomputing its position from the distance to the end, which
/// the clone preserves.
pub struct BorrowedFastForeachItem {
    pub(crate) item: usize,
    pub(crate) end: usize,
}

impl FastForeachItem for BorrowedFastForeachItem {

}

/// The bulk visitor's per-element state once the contents are owned: reads
/// and writes go straight to the storage, with no transition check at all.
pub struct OwnedForEachItem {
    pub(crate) item: usize,
}

impl FastForeachItem for OwnedForEachItem {

}

impl BorrowedFastForeachItem {
    /// The position of the element being visited.
    pub open(crate) spec fn pos(&self) -> int {
        self.item as int
    }

    /// The position one past the last element to visit.
    pub open(crate) spec fn end_pos(&self) -> int {
        self.end as int
    }

    /// Reads the element being visited; never takes ownership.
    pub fn read<'extvec, T: Copy>(&self, main: &CowVecMain<'extvec, T>) -> (x: T)
        requires
            self.pos() < self.end_pos(),
            self.end_pos() == main@.len(),
        ensures
            x == main@[self.pos()],
    {
        main.read(self.item)
    }

    /// Writes the element being visited, taking ownership first if the
    /// contents are still borrowed.
    pub fn write<'extvec, T: Copy>(&mut self, main: &mut CowVecMain<'extvec, T>, value: T)
        requires
            old(self).pos() < old(self).end_pos(),
            old(self).end_pos() == old(main)@.len(),
        ensures
            final(main)@ == old(main)@.update(old(self).pos(), value),
            final(main).owned(),
            *final(self) == *old(self),
    {
        if main.is_owned() {
            main.write(self.item, value);
        } else {
            let dist_from_end = self.end - self.item;
            main.ensure_owned();
            self.end = main.len();
            self.item = self.end - dist_from_end;
            main.write(self.item, value);
        }
    }
}

impl OwnedForEachItem {
    /// The position of the element being visited.
    pub open(crate) spec fn pos(&self) -> int {
        self.item as int
    }

    /// Reads the element being visited.
    pub fn read<'extvec, T: Copy>(&self, main: &CowVecMain<'extvec, T>) -> (x: T)
        requires
            self.pos() < main@.len(),
        ensures
            x == main@[self.pos()],
    {
        main.read(self.item)
    }

    /// Writes the element being visited; the contents are owned already, so
    /// no transition check is needed.
    pub fn write<'extvec, T: Copy>(&mut self, main: &mut CowVecMain<'extvec, T>, value: T)
        requires
            old(main).owned(),
            old(self).pos() < old(main)@.len(),
        ensures
            final(main)@ == old(main)@.update(old(self).pos(), value),
            final(main).owned(),
            *final(self) == *old(self),
    {
        main.write(self.item, value);
    }
}

} // verus!
