//! Door attribute flags: a bitset of behavior modifiers fixed when an entry
//! point is created (or reported back when one is inspected).
//!
//! The kernel interprets the individual bits; this library only assembles
//! and reads the word. Each constructor below yields the set holding exactly
//! one flag; sets are combined with [`DoorAttributes::union`].

use vstd::prelude::*;

verus! {

/// Deliver an unreferenced notification when no client holds the door.
pub const DOOR_UNREF: u32 = 0x01;

/// Use a private pool of server threads for this door.
pub const DOOR_PRIVATE: u32 = 0x02;

/// The descriptor is local to the current process.
pub const DOOR_LOCAL: u32 = 0x04;

/// The door has been revoked.
pub const DOOR_REVOKED: u32 = 0x08;

/// Deliver the unreferenced notification more than once.
pub const DOOR_UNREF_MULTI: u32 = 0x10;

/// The door is currently unreferenced.
pub const DOOR_IS_UNREF: u32 = 0x20;

/// Refuse descriptors sent by clients.
pub const DOOR_REFUSE_DESC: u32 = 0x40;

/// Do not cancel the server thread when the client aborts.
pub const DOOR_NO_CANCEL: u32 = 0x80;

/// No thread-creation callbacks on pool depletion.
pub const DOOR_NO_DEPLETION_CB: u32 = 0x100;

/// The door has a private thread-creation function.
pub const DOOR_PRIVCREATE: u32 = 0x200;

/// Thread-depletion callbacks are enabled.
pub const DOOR_DEPLETION_CB: u32 = 0x400;

/// A set of door attribute flags.
#[derive(Clone, Copy, Debug, PartialEq, Eq, Structural)]
pub struct DoorAttributes {
    attrs: u32,
}

impl View for DoorAttributes {
    type V = u32;

    /// The raw attribute word this set stands for.
    closed spec fn view(&self) -> u32 {
        self.attrs
    }
}

impl DoorAttributes {
    /// The empty set: no behavior modifiers.
    pub fn none() -> (r: DoorAttributes)
        ensures
            r@ == 0u32,
    {
        DoorAttributes { attrs: 0 }
    }

    /// Ask for a shutdown notification once no client references the door.
    pub fn unref() -> (r: DoorAttributes)
        ensures
            r@ == DOOR_UNREF,
    {
        DoorAttributes { attrs: DOOR_UNREF }
    }

    /// Ask for the unreferenced notification to be delivered repeatedly.
    pub fn unref_multi() -> (r: DoorAttributes)
        ensures
            r@ == DOOR_UNREF_MULTI,
    {
        DoorAttributes { attrs: DOOR_UNREF_MULTI }
    }

    /// Serve invocations from a private pool of threads.
    pub fn private() -> (r: DoorAttributes)
        ensures
            r@ == DOOR_PRIVATE,
    {
        DoorAttributes { attrs: DOOR_PRIVATE }
    }

    /// Refuse descriptor transfer from clients.
    pub fn refuse_desc() -> (r: DoorAttributes)
        ensures
            r@ == DOOR_REFUSE_DESC,
    {
        DoorAttributes { attrs: DOOR_REFUSE_DESC }
    }

    /// Keep the server thread alive when the client aborts.
    pub fn no_cancel() -> (r: DoorAttributes)
        ensures
            r@ == DOOR_NO_CANCEL,
    {
        DoorAttributes { attrs: DOOR_NO_CANCEL }
    }

    /// Suppress thread-creation callbacks on pool depletion.
    pub fn no_depletion_callback() -> (r: DoorAttributes)
        ensures
            r@ == DOOR_NO_DEPLETION_CB,
    {
        DoorAttributes { attrs: DOOR_NO_DEPLETION_CB }
    }

    /// The flag the kernel reports for a descriptor local to this process.
    pub fn local() -> (r: DoorAttributes)
        ensures
            r@ == DOOR_LOCAL,
    {
        DoorAttributes { attrs: DOOR_LOCAL }
    }

    /// The flag the kernel reports for a revoked door.
    pub fn revoked() -> (r: DoorAttributes)
        ensures
            r@ == DOOR_REVOKED,
    {
        DoorAttributes { attrs: DOOR_REVOKED }
    }

    /// The flag the kernel reports for a door nobody references.
    pub fn is_unreferenced() -> (r: DoorAttributes)
        ensures
            r@ == DOOR_IS_UNREF,
    {
        DoorAttributes { attrs: DOOR_IS_UNREF }
    }

    /// The door was created with a private thread-creation function.
    pub fn privcreate() -> (r: DoorAttributes)
        ensures
            r@ == DOOR_PRIVCREATE,
    {
        DoorAttributes { attrs: DOOR_PRIVCREATE }
    }

    /// Thread-depletion callbacks are enabled for this door.
    pub fn depletion_callback() -> (r: DoorAttributes)
        ensures
            r@ == DOOR_DEPLETION_CB,
    {
        DoorAttributes { attrs: DOOR_DEPLETION_CB }
    }

    /// Rebuild a set from a raw attribute word, as reported by the kernel
    /// when a door is inspected.
    pub fn from_raw(raw: u32) -> (r: DoorAttributes)
        ensures
            r@ == raw,
    {
        DoorAttributes { attrs: raw }
    }

    /// The raw attribute word, as the kernel consumes it at entry-point
    /// creation.
    pub fn get(&self) -> (r: u32)
        ensures
            r == self@,
    {
        self.attrs
    }

    /// The union of two flag sets.
    pub fn union(self, other: DoorAttributes) -> (r: DoorAttributes)
        ensures
            r@ == self@ | other@,
    {
        DoorAttributes { attrs: self.attrs | other.attrs }
    }
}

} // verus!
