//! The argument record a call is issued with, and the result view a call
//! hands back.
//!
//! Before a call, the record names the outbound payload, the outbound
//! descriptors, and an inbound buffer — a span of caller-owned memory the
//! kernel may answer into. After a successful call the kernel has either
//! left the inbound buffer's address unchanged (the answer fit, the caller's
//! own memory holds it) or replaced it with the address of a newly mapped
//! region that the caller now owns and must unmap exactly once. The two
//! outcomes are kept apart by the tagged [`DoorArgument`] view rather than
//! by pointer comparisons scattered through call sites.

use vstd::prelude::*;

use crate::desc::DoorFd;

verus! {

/// A span of memory: base address plus length in bytes.
///
/// Addresses are carried as plain integers; the unverified code around the
/// library is what turns them into pointers and back.
#[derive(Clone, Copy, Debug, PartialEq, Eq, Structural)]
pub struct Region {
    /// The base address of the span.
    pub base: u64,
    /// The length of the span in bytes.
    pub len: usize,
}

/// One call's argument record: payload and descriptors travelling out, and
/// the inbound buffer the answer may arrive in.
///
/// The same shape describes the record after the call, with `data` then
/// holding the response bytes, `descriptors` the received descriptors, and
/// `rbuf` the region the kernel actually answered into.
#[derive(Clone, Debug, PartialEq, Eq)]
pub struct DoorArg {
    /// Payload bytes: the request before the call, the response after it.
    pub data: Vec<u8>,
    /// Descriptor records travelling with the payload.
    pub descriptors: Vec<DoorFd>,
    /// The inbound buffer: caller-supplied before the call, the kernel's
    /// chosen response region after it.
    pub rbuf: Region,
}

impl DoorArg {
    /// Assemble an argument record. An inbound buffer of length zero
    /// reserves no space and leaves the kernel to allocate the response
    /// region itself.
    pub fn new(data: Vec<u8>, descriptors: Vec<DoorFd>, rbuf: Region) -> (r: DoorArg)
        ensures
            r.data == data,
            r.descriptors == descriptors,
            r.rbuf == rbuf,
    {
        DoorArg { data, descriptors, rbuf }
    }
}

/// The result view of a call: the same record either borrowed or owned.
///
/// `BorrowedRbuf` means the response lies in the buffer the caller supplied;
/// tearing the view down releases nothing. `OwnedRbuf` means the response
/// lies in a region the kernel newly mapped into the caller's address space;
/// the caller owns that region and must unmap it exactly once, when the view
/// is torn down.
#[derive(Clone, Debug, PartialEq, Eq)]
pub enum DoorArgument {
    /// The response occupies the caller-supplied inbound buffer.
    BorrowedRbuf(DoorArg),
    /// The response occupies a newly mapped region the caller now owns.
    OwnedRbuf(DoorArg),
}

impl DoorArgument {
    /// The record inside the view, whichever way it is tagged.
    pub open spec fn spec_inner(self) -> DoorArg {
        match self {
            DoorArgument::BorrowedRbuf(inner) => inner,
            DoorArgument::OwnedRbuf(inner) => inner,
        }
    }

    /// The region that must be unmapped when this view is torn down:
    /// the response region for an owned view, nothing for a borrowed one.
    pub open spec fn spec_release(self) -> Option<Region> {
        match self {
            DoorArgument::BorrowedRbuf(_) => None,
            DoorArgument::OwnedRbuf(inner) => Some(inner.rbuf),
        }
    }

    /// An argument record over a caller-owned inbound buffer. This is the
    /// form every call starts from.
    pub fn new(data: Vec<u8>, descriptors: Vec<DoorFd>, response: Region) -> (r: DoorArgument)
        ensures
            r == DoorArgument::BorrowedRbuf(DoorArg { data, descriptors, rbuf: response }),
    {
        DoorArgument::borrowed_rbuf(data, descriptors, response)
    }

    /// An argument record tagged as borrowing its inbound buffer.
    pub fn borrowed_rbuf(data: Vec<u8>, descriptors: Vec<DoorFd>, response: Region) -> (r:
        DoorArgument)
        ensures
            r == DoorArgument::BorrowedRbuf(DoorArg { data, descriptors, rbuf: response }),
    {
        DoorArgument::BorrowedRbuf(DoorArg::new(data, descriptors, response))
    }

    /// An argument record tagged as owning its inbound buffer.
    pub fn owned_rbuf(data: Vec<u8>, descriptors: Vec<DoorFd>, response: Region) -> (r:
        DoorArgument)
        ensures
            r == DoorArgument::OwnedRbuf(DoorArg { data, descriptors, rbuf: response }),
    {
        DoorArgument::OwnedRbuf(DoorArg::new(data, descriptors, response))
    }

    /// The record inside the view.
    fn inner(&self) -> (r: &DoorArg)
        ensures
            *r == self.spec_inner(),
    {
        match self {
            DoorArgument::BorrowedRbuf(inner) => inner,
            DoorArgument::OwnedRbuf(inner) => inner,
        }
    }

    /// The payload bytes: the request before a call, the response after it.
    pub fn data(&self) -> (r: &Vec<u8>)
        ensures
            *r == self.spec_inner().data,
    {
        &self.inner().data
    }

    /// The descriptor records travelling with the payload.
    pub fn descriptors(&self) -> (r: &Vec<DoorFd>)
        ensures
            *r == self.spec_inner().descriptors,
    {
        &self.inner().descriptors
    }

    /// The inbound buffer span: its address and its length in bytes.
    pub fn rbuf(&self) -> (r: Region)
        ensures
            r == self.spec_inner().rbuf,
    {
        self.inner().rbuf
    }

    /// The address of the inbound buffer, as compared before and after a
    /// call to classify the response.
    pub fn rbuf_addr(&self) -> (r: u64)
        ensures
            r == self.spec_inner().rbuf.base,
    {
        self.inner().rbuf.base
    }

    /// Whether tearing this view down must unmap a kernel-mapped region.
    pub fn is_owned(&self) -> (r: bool)
        ensures
            r == (self.spec_release() is Some),
    {
        match self {
            DoorArgument::BorrowedRbuf(_) => false,
            DoorArgument::OwnedRbuf(_) => true,
        }
    }

    /// Tear the view down, yielding the region that must now be unmapped —
    /// exactly the response region for an owned view, nothing for a borrowed
    /// one.
    ///
    /// Taking the view by value is what makes a second release
    /// unrepresentable: once released, the view is gone.
    pub fn release(self) -> (r: Option<Region>)
        ensures
            r == self.spec_release(),
    {
        match self {
            DoorArgument::BorrowedRbuf(_) => None,
            DoorArgument::OwnedRbuf(inner) => Some(inner.rbuf),
        }
    }
}

/// Ownership exactness: tearing a view down names a region to unmap exactly
/// when the view owns its buffer — the kernel-mapped region itself for an
/// owned view, and nothing (a no-op) for a borrowed one. Since
/// [`DoorArgument::release`] consumes the view, no second release of the
/// same region can be expressed.
pub proof fn lemma_release_exactness(view: DoorArgument)
    ensures
        view matches DoorArgument::OwnedRbuf(inner) ==> view.spec_release() == Some(inner.rbuf),
        view matches DoorArgument::BorrowedRbuf(_) ==> view.spec_release() is None,
{
}

} // verus!
