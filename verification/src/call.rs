//! Interpreting what a call invocation left behind: did the kernel answer
//! into the caller's own buffer, or into a region it newly mapped?
//!
//! The kernel's contract is positional: after a successful call, the
//! inbound-buffer address in the argument record either still equals the
//! address the caller supplied (the answer fit in the caller's region) or
//! has been overwritten with the address of a fresh mapping the caller now
//! owns. The comparison lives in exactly one place,
//! [`classify_after_call`], so the ownership rule is stated and checked
//! once rather than at every call site.

use vstd::prelude::*;

use crate::arg::DoorArg;
use crate::arg::DoorArgument;
use crate::arg::Region;
use crate::errors::spec_door_call_error;
use crate::errors::DoorCallError;

verus! {

/// The view that classification assigns to a returned record: borrowed when
/// the response region still starts at the supplied address, owned
/// otherwise.
pub open spec fn spec_classify(pre_addr: u64, returned: DoorArg) -> DoorArgument {
    if returned.rbuf.base == pre_addr {
        DoorArgument::BorrowedRbuf(returned)
    } else {
        DoorArgument::OwnedRbuf(returned)
    }
}

/// Classify the record a successful call left behind, given the
/// inbound-buffer address that was supplied before the call.
///
/// If the address is unchanged the response lies in the caller's own
/// buffer and the view borrows it; if it changed, the kernel mapped a new
/// region into the caller's address space as a side effect of the call, and
/// the view owns that region. The record itself is carried over unchanged
/// either way.
pub fn classify_after_call(pre_addr: u64, returned: DoorArg) -> (r: DoorArgument)
    ensures
        r == spec_classify(pre_addr, returned),
        r.spec_inner() == returned,
        (r is BorrowedRbuf) == (returned.rbuf.base == pre_addr),
{
    if returned.rbuf.base == pre_addr {
        DoorArgument::BorrowedRbuf(returned)
    } else {
        DoorArgument::OwnedRbuf(returned)
    }
}

/// The outcome of a whole call invocation, given the call's return code,
/// the error slot's value, the supplied inbound-buffer address, and the
/// record the kernel left behind.
pub open spec fn spec_call_outcome(rc: i32, code: i32, pre_addr: u64, returned: DoorArg) -> Result<
    DoorArgument,
    DoorCallError,
> {
    if rc == 0 {
        Ok(spec_classify(pre_addr, returned))
    } else {
        Err(spec_door_call_error(code)->Some_0)
    }
}

/// Interpret a completed call invocation: on success, classify the returned
/// record; on failure, translate the error slot's value into the typed
/// error.
///
/// A failed call never yields a partial view: the result is either a fully
/// classified record or a typed error. The caller must only hand in an
/// error code the call is documented to set; any other code is a
/// kernel-contract violation this function does not interpret.
pub fn interpret_call(rc: i32, code: i32, pre_addr: u64, returned: DoorArg) -> (r: Result<
    DoorArgument,
    DoorCallError,
>)
    requires
        rc != 0 ==> spec_door_call_error(code) is Some,
    ensures
        r == spec_call_outcome(rc, code, pre_addr, returned),
        rc == 0 ==> (r matches Ok(view) && view == spec_classify(pre_addr, returned)),
        rc != 0 ==> r == Err::<DoorArgument, DoorCallError>(spec_door_call_error(code)->Some_0),
{
    if rc == 0 {
        Ok(classify_after_call(pre_addr, returned))
    } else {
        match crate::errors::door_call_error_from_code(code) {
            Some(e) => Err(e),
            None => vstd::pervasive::unreached(),
        }
    }
}

/// Whether the kernel can answer into the caller's own inbound buffer: the
/// buffer must reserve some space and the reply must fit in it. With a
/// zero-length buffer the caller reserved nothing, and the kernel always
/// maps a fresh region.
pub open spec fn kernel_reuses_buffer(supplied: Region, reply_len: nat) -> bool {
    supplied.len > 0 && reply_len <= supplied.len
}

/// The response region a faithful kernel reports: the supplied buffer when
/// the reply fits in it, and a freshly mapped region otherwise. A fresh
/// mapping never starts at the supplied buffer's own address, since both
/// are live in the caller's address space at once.
pub open spec fn kernel_response_region(supplied: Region, reply_len: nat, fresh: Region) -> Region {
    if kernel_reuses_buffer(supplied, reply_len) {
        supplied
    } else {
        fresh
    }
}

/// Borrow/own boundary: for an inbound buffer of capacity `supplied.len`
/// and a reply of `reply.data` bytes, classification yields a borrowed view
/// exactly when the buffer reserved space and the reply fit in it — and an
/// owned view when the reply was longer or the buffer was empty.
pub proof fn lemma_borrow_own_boundary(supplied: Region, reply: DoorArg, fresh: Region)
    requires
        fresh.base != supplied.base,
        reply.rbuf == kernel_response_region(supplied, reply.data@.len(), fresh),
    ensures
        (spec_classify(supplied.base, reply) is BorrowedRbuf) == (supplied.len > 0
            && reply.data@.len() <= supplied.len),
        supplied.len == 0 ==> spec_classify(supplied.base, reply) is OwnedRbuf,
        reply.data@.len() > supplied.len ==> spec_classify(supplied.base, reply) is OwnedRbuf,
{
}

} // verus!
