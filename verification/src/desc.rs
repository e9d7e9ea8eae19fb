//! Descriptor records: one transferable file or door descriptor together
//! with its transfer mode.
//!
//! When a descriptor is passed through a door call or a door return, the
//! kernel either *duplicates* it (both processes end up with independent
//! access to the underlying resource) or *releases* it (the sender's copy is
//! closed once the transfer completes, so the receiver holds exclusive
//! access). The mode is encoded in the record's attribute bits.

use vstd::prelude::*;

verus! {

/// Attribute bit marking a record as carrying a file descriptor. Every
/// descriptor record carries this bit.
pub const DOOR_DESCRIPTOR: u32 = 0x10000;

/// Attribute bit asking the kernel to release the sender's copy of the
/// descriptor once it has been passed: an exclusive handoff rather than a
/// duplication.
pub const DOOR_RELEASE: u32 = 0x40000;

/// One transferable descriptor plus its transfer mode.
///
/// The attribute word is either `DOOR_DESCRIPTOR` (duplicate: both sides
/// keep access) or `DOOR_DESCRIPTOR | DOOR_RELEASE` (release: the sender's
/// copy becomes invalid after the call).
#[derive(Clone, Copy, Debug, PartialEq, Eq, Structural)]
pub struct DoorFd {
    pub d_descriptor: i32,
    pub d_attributes: u32,
}

impl DoorFd {
    /// A record is well formed when its attribute word is one of the two
    /// encodings a constructor can produce.
    pub open spec fn wf(self) -> bool {
        self.d_attributes == DOOR_DESCRIPTOR
            || self.d_attributes == DOOR_DESCRIPTOR | DOOR_RELEASE
    }

    /// The record `new(raw, release)` builds.
    pub open spec fn spec_new(raw: i32, release: bool) -> DoorFd {
        DoorFd {
            d_descriptor: raw,
            d_attributes: if release {
                DOOR_DESCRIPTOR | DOOR_RELEASE
            } else {
                DOOR_DESCRIPTOR
            },
        }
    }

    /// Whether this record asks for an exclusive handoff.
    pub open spec fn spec_will_release(self) -> bool {
        self.d_attributes == DOOR_DESCRIPTOR | DOOR_RELEASE
    }

    /// Create a record for the raw descriptor `raw`.
    ///
    /// With `release` set, the sender's copy of the descriptor becomes
    /// invalid once the call or return completes and the receiver holds
    /// exclusive access; without it, sender and receiver each keep
    /// independent access to the same resource.
    pub fn new(raw: i32, release: bool) -> (r: DoorFd)
        ensures
            r == DoorFd::spec_new(raw, release),
            r.wf(),
            r.spec_will_release() == release,
    {
        let d_attributes: u32 = if release {
            DOOR_DESCRIPTOR | DOOR_RELEASE
        } else {
            DOOR_DESCRIPTOR
        };
        proof {
            assert((DOOR_DESCRIPTOR | DOOR_RELEASE) != DOOR_DESCRIPTOR) by (bit_vector);
        }
        DoorFd { d_descriptor: raw, d_attributes }
    }

    /// The raw descriptor value held in this record.
    pub fn as_raw_fd(&self) -> (r: i32)
        ensures
            r == self.d_descriptor,
    {
        self.d_descriptor
    }

    /// True exactly when the record was created in release mode: passing it
    /// through a call invalidates the sender's copy.
    pub fn will_release(&self) -> (r: bool)
        ensures
            r == self.spec_will_release(),
    {
        self.d_attributes == DOOR_DESCRIPTOR | DOOR_RELEASE
    }
}

} // verus!
