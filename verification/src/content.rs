//! The content store: either an owned vector or a shared reference to an
//! external one, with the one-way borrowed-to-owned transition.

use vstd::prelude::*;

verus! {

/// Storage of a copy-on-write vector: its own vector, or a shared reference
/// to an external one that is cloned on the first write.
pub(crate) enum CowVecContent<'extvec, T> {
    Owned(Vec<T>),
    Borrowed(&'extvec Vec<T>),
}

/// Copies a vector element by element.
pub(crate) fn copy_vec<T: Copy>(src: &Vec<T>) -> (r: Vec<T>)
    ensures
        r@ == src@,
{
    let mut r: Vec<T> = Vec::new();
    let mut i: usize = 0;
    while i < src.len()
        invariant
            i <= src@.len(),
            r@ == src@.subrange(0, i as int),
        decreases src@.len() - i,
    {
        r.push(src[i]);
        i += 1;
    }
    proof {
        assert(r@ =~= src@);
    }
    r
}

impl<'extvec, T> CowVecContent<'extvec, T> {
    /// True iff the storage is owned.
    pub(crate) open spec fn owned(&self) -> bool {
        self is Owned
    }

    /// The logical sequence of elements currently visible.
    pub(crate) open spec fn contents(&self) -> Seq<T> {
        match *self {
            CowVecContent::Owned(v) => v@,
            CowVecContent::Borrowed(v) => v@,
        }
    }
}

impl<'extvec, T: Copy> CowVecContent<'extvec, T> {
    pub(crate) fn len(&self) -> (n: usize)
        ensures
            n == self.contents().len(),
    {
        match self {
            CowVecContent::Owned(v) => v.len(),
            CowVecContent::Borrowed(v) => v.len(),
        }
    }

    pub(crate) fn read(&self, i: usize) -> (x: T)
        requires
            i < self.contents().len(),
        ensures
            x == self.contents()[i as int],
    {
        match self {
            CowVecContent::Owned(v) => v[i],
            CowVecContent::Borrowed(v) => v[i],
        }
    }

    /// The borrowed-to-owned transition: idempotent, and invisible in the
    /// contents. The external vector is only read, never changed.
    pub(crate) fn ensure_owned(&mut self)
        ensures
            final(self).owned(),
            final(self).contents() == old(self).contents(),
    {
        match self {
            CowVecContent::Owned(_) => {},
            CowVecContent::Borrowed(v) => {
                let copied = copy_vec(*v);
                *self = CowVecContent::Owned(copied);
            },
        }
    }

    /// Writes one element; only owned storage is ever written.
    pub(crate) fn write(&mut self, i: usize, value: T)
        requires
            old(self).owned(),
            i < old(self).contents().len(),
        ensures
            final(self).owned(),
            final(self).contents() == old(self).contents().update(i as int, value),
    {
        match self {
            CowVecContent::Owned(v) => {
                let elem = &mut v[i];
                *elem = value;
            },
            CowVecContent::Borrowed(_) => {
                proof {
                    assert(false);
                }
            },
        }
    }
}

/// Holds the content store of a copy-on-write vector; an internal helper
/// through which the traversal wrappers reach the storage.
pub struct CowVecMain<'extvec, T> {
    pub(crate) content: CowVecContent<'extvec, T>,
}

impl<'extvec, T> View for CowVecMain<'extvec, T> {
    type V = Seq<T>;

    open(crate) spec fn view(&self) -> Seq<T> {
        self.content.contents()
    }
}

impl<'extvec, T> CowVecMain<'extvec, T> {
    /// True iff the storage is owned rather than borrowed.
    pub open(crate) spec fn owned(&self) -> bool {
        self.content.owned()
    }
}

impl<'extvec, T: Copy> CowVecMain<'extvec, T> {
    /// True iff the storage is owned; never changes the storage.
    pub fn is_owned(&self) -> (b: bool)
        ensures
            b == self.owned(),
    {
        match &self.content {
            CowVecContent::Owned(_) => true,
            CowVecContent::Borrowed(_) => false,
        }
    }

    /// Takes ownership of the storage if it is still borrowed.
    pub fn ensure_owned(&mut self)
        ensures
            final(self).owned(),
            final(self)@ == old(self)@,
    {
        self.content.ensure_owned();
    }

    pub(crate) fn len(&self) -> (n: usize)
        ensures
            n == self@.len(),
    {
        self.content.len()
    }

    pub(crate) fn read(&self, i: usize) -> (x: T)
        requires
            i < self@.len(),
        ensures
            x == self@[i as int],
    {
        self.content.read(i)
    }

    pub(crate) fn write(&mut self, i: usize, value: T)
        requires
            old(self).owned(),
            i < old(self)@.len(),
        ensures
            final(self).owned(),
            final(self)@ == old(self)@.update(i as int, value),
    {
        self.content.write(i, value)
    }

    pub(crate) fn push_owned(&mut self, value: T)
        requires
            old(self).owned(),
        ensures
            final(self).owned(),
            final(self)@ == old(self)@.push(value),
    {
        match &mut self.content {
            CowVecContent::Owned(v) => {
                v.push(value);
            },
            CowVecContent::Borrowed(_) => {
                proof {
                    assert(false);
                }
            },
        }
    }
}

} // verus!
