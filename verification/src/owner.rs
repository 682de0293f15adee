//! Who answers for a buffer or an object of the runtime. A buffer handle is
//! the address of a buffer and a flag: the holder of an owned handle releases
//! the buffer, once; a handle that is not owned stands for a buffer that another
//! holder answers for. A reference to an object is counted: every copy of a
//! live reference owes the object one increment of its count, and every end of
//! one owes it one decrement. The primitives that copy and destroy a buffer and
//! that count references are the runtime's: the library says when each is due
//! and on which address.

use vstd::prelude::*;
use crate::errors::Error;

verus! {

/// The address of an array buffer, which is 0 for the null handle, and
/// whether the holder owns the buffer.
#[derive(Clone, Copy, Debug, PartialEq, Eq, Structural)]
pub struct BufferHandle {
    pub address: usize,
    pub owned: bool,
}

/// What duplicating a handle comes to.
#[derive(Clone, Copy, Debug, PartialEq, Eq, Structural)]
pub enum Duplicate {
    /// A deep copy is due: the copy primitive is called on this address, and
    /// `adopt` makes the duplicate of the address that it hands back.
    Copy(usize),
    /// The duplicate, which shares the buffer: nothing is allocated.
    Share(BufferHandle),
}

impl BufferHandle {
    /// The holder answers for a buffer: the handle is owned and not null.
    pub open spec fn answers(self) -> bool {
        self.owned && self.address != 0
    }

    /// What duplicating the handle comes to: a deep copy where the holder
    /// answers for the buffer, else a handle of the same address and flag.
    pub open spec fn spec_duplicate(self) -> Duplicate {
        if self.answers() {
            Duplicate::Copy(self.address)
        } else {
            Duplicate::Share(self)
        }
    }

    /// The address to destroy, if any, and the handle afterwards: where the
    /// holder answers for the buffer, its address and the null handle.
    pub open spec fn spec_release(self) -> (Option<usize>, BufferHandle) {
        if self.answers() {
            (Some(self.address), BufferHandle { address: 0, owned: self.owned })
        } else {
            (None, self)
        }
    }

    /// The handle of a buffer at an address.
    pub fn new(address: usize, owned: bool) -> (h: BufferHandle)
        ensures
            h == (BufferHandle { address, owned }),
    {
        BufferHandle { address, owned }
    }

    /// The owned handle of a buffer that the runtime has just made at the
    /// address; a null-pointer error where it made none and the address is null.
    pub fn created(address: usize) -> (r: Result<BufferHandle, Error>)
        ensures
            r == if address == 0 {
                Err::<BufferHandle, Error>(Error::NullPointer)
            } else {
                Ok::<BufferHandle, Error>(BufferHandle { address, owned: true })
            },
    {
        if address == 0 {
            Err(Error::NullPointer)
        } else {
            Ok(BufferHandle { address, owned: true })
        }
    }

    /// The owned handle of the buffer that the copy primitive made at the address.
    pub fn adopt(copied: usize) -> (h: BufferHandle)
        ensures
            h == (BufferHandle { address: copied, owned: true }),
    {
        BufferHandle { address: copied, owned: true }
    }

    /// Whether the holder answers for a buffer.
    pub fn is_answerable(&self) -> (r: bool)
        ensures
            r == self.answers(),
    {
        self.owned && self.address != 0
    }

    /// What duplicating the handle comes to.
    pub fn duplicate(&self) -> (d: Duplicate)
        ensures
            d == self.spec_duplicate(),
    {
        if self.owned && self.address != 0 {
            Duplicate::Copy(self.address)
        } else {
            Duplicate::Share(*self)
        }
    }

    /// Gives up the buffer: hands back the address on which the destroy
    /// primitive is due, if any, and leaves the null handle where it does.
    pub fn release(&mut self) -> (due: Option<usize>)
        ensures
            (due, *final(self)) == old(self).spec_release(),
    {
        if self.owned && self.address != 0 {
            let address = self.address;
            self.address = 0;
            Some(address)
        } else {
            None
        }
    }
}

/// A counted reference to an object of the runtime: its address, which is 0
/// for the null reference.
#[derive(Clone, Copy, Debug, PartialEq, Eq, Structural)]
pub struct Reference {
    pub address: usize,
}

impl Reference {
    /// The reference is to an object: it is not null.
    pub open spec fn live(self) -> bool {
        self.address != 0
    }

    /// The address on which an increment of the count is due, if any, and the
    /// duplicate: a live reference is copied counted, the null one free.
    pub open spec fn spec_duplicate(self) -> (Option<usize>, Reference) {
        if self.live() {
            (Some(self.address), self)
        } else {
            (None, self)
        }
    }

    /// The address on which a decrement of the count is due, if any, and the
    /// reference afterwards, which is null.
    pub open spec fn spec_release(self) -> (Option<usize>, Reference) {
        if self.live() {
            (Some(self.address), Reference { address: 0 })
        } else {
            (None, self)
        }
    }

    /// The reference at an address.
    pub fn new(address: usize) -> (r: Reference)
        ensures
            r == (Reference { address }),
    {
        Reference { address }
    }

    /// Copies the reference: hands back the address on which an increment of
    /// the count is due, if any, and the duplicate.
    pub fn duplicate(&self) -> (r: (Option<usize>, Reference))
        ensures
            r == self.spec_duplicate(),
    {
        if self.address != 0 {
            (Some(self.address), *self)
        } else {
            (None, *self)
        }
    }

    /// Ends the reference: hands back the address on which a decrement of the
    /// count is due, if any, and leaves the null reference.
    pub fn release(&mut self) -> (due: Option<usize>)
        ensures
            (due, *final(self)) == old(self).spec_release(),
    {
        if self.address != 0 {
            let address = self.address;
            self.address = 0;
            Some(address)
        } else {
            None
        }
    }
}

/// A copy of a reference is counted, and each reference is released once: the
/// duplicate owes the object of a live reference one increment, its end owes
/// the same object one decrement, and after the end nothing more is due. The
/// null reference owes nothing.
pub proof fn lemma_counted_copy(r: Reference)
    ensures
        r.spec_duplicate().0 is Some <==> r.live(),
        r.spec_duplicate().1 == r,
        r.spec_duplicate().1.spec_release().0 == r.spec_duplicate().0,
        r.spec_release().1.spec_release().0 is None,
        r.live() ==> r.spec_duplicate().0 == Some(r.address),
{
}

/// The duplicate of a handle that is not owned has the identical address and
/// is not owned; no copy is made.
pub proof fn lemma_borrowed_duplicate_shares(h: BufferHandle)
    requires
        !h.owned,
    ensures
        h.spec_duplicate() == Duplicate::Share(BufferHandle { address: h.address, owned: false }),
{
}

/// The duplicate of an owned handle that is not null is a deep copy: it is made
/// by the copy primitive on the source's address, and is the owned handle of the
/// buffer that the primitive hands back.
pub proof fn lemma_owned_duplicate_copies(h: BufferHandle)
    requires
        h.answers(),
    ensures
        h.spec_duplicate() == Duplicate::Copy(h.address),
{
}

/// A buffer is released at most once: after a release nothing more is due.
pub proof fn lemma_released_once(h: BufferHandle)
    ensures
        h.spec_release().1.spec_release().0 is None,
        h.spec_release().0 is Some <==> h.answers(),
{
}

} // verus!
