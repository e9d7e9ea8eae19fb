//! Door metadata, as reported when a door descriptor is inspected.
//!
//! Any process holding a valid descriptor for a door can read this record:
//! the server process, the address of its procedure, the creation-time
//! cookie, the attribute flags, and a system-wide unique number for the
//! door. The inspection call itself is a kernel call made by the unverified
//! code around the library, which fills this record from the raw structure
//! the kernel wrote.

use vstd::prelude::*;

use crate::attrs::DoorAttributes;

verus! {

/// Metadata for one door.
#[derive(Clone, Copy, Debug, PartialEq, Eq, Structural)]
pub struct DoorInfo {
    /// The process id of the door's server.
    pub target: u32,
    /// The address of the server procedure, in the server's address space.
    pub proc_address: u64,
    /// The cookie fixed when the door was created.
    pub cookie: u64,
    /// The door's attribute flags, as the kernel reports them.
    pub attributes: u32,
    /// A number distinguishing this door from every other, even one created
    /// with the same procedure, cookie and attributes.
    pub id: u64,
}

impl DoorInfo {
    /// Assemble a metadata record from the kernel-reported values.
    pub fn new(target: u32, proc_address: u64, cookie: u64, attributes: u32, id: u64) -> (r:
        DoorInfo)
        ensures
            r == (DoorInfo { target, proc_address, cookie, attributes, id }),
    {
        DoorInfo { target, proc_address, cookie, attributes, id }
    }

    /// The process id of the door's server.
    pub fn target(&self) -> (r: u32)
        ensures
            r == self.target,
    {
        self.target
    }

    /// The address of the server procedure, in the server's address space.
    pub fn proc_address(&self) -> (r: u64)
        ensures
            r == self.proc_address,
    {
        self.proc_address
    }

    /// The cookie fixed when the door was created.
    pub fn cookie(&self) -> (r: u64)
        ensures
            r == self.cookie,
    {
        self.cookie
    }

    /// The door's attribute flags.
    pub fn attributes(&self) -> (r: DoorAttributes)
        ensures
            r@ == self.attributes,
    {
        DoorAttributes::from_raw(self.attributes)
    }

    /// The door's unique number.
    pub fn id(&self) -> (r: u64)
        ensures
            r == self.id,
    {
        self.id
    }
}

} // verus!
