//! A copy-on-write vector.
//!
//! A [`CowVec`] wraps either a vector of its own or a shared reference to an
//! external vector. It can be traversed mutably as if it owned its elements;
//! the borrowed vector is cloned the first time an element is actually
//! written, and never cloned at all if no element is written. The external
//! vector itself is never modified.
//!
//! Two traversal forms are offered: [`CowVec::iter_mut`] hands out one
//! [`CowVecItemWrapper`] per step, a capability to read and write exactly one
//! element, guarded so that at most one wrapper is outstanding at a time; and
//! [`CowVec::fast_for_each_mut`], which visits every element with a callback
//! and needs no per-step guard because no wrapper escapes between elements.

mod content;
mod cow;
mod iter;
mod visit;

pub use content::CowVecMain;
pub use cow::CowVec;
pub use iter::CowVecItemWrapper;
pub use iter::CowVecIter;
pub use visit::BorrowedFastForeachItem;
pub use visit::FastForeachItem;
pub use visit::OwnedForEachItem;
pub use visit::apply_write;
pub use visit::lemma_visit_lockstep;
pub use visit::lemma_visited_determined;
pub use visit::may_skip;
pub use visit::may_write;
pub use visit::must_write;
pub use visit::visited;
