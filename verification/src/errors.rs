//! Typed errors and the translation of platform error codes into them.
//!
//! The platform reports failures through a process-global error slot; after
//! every fallible kernel call the slot's value is translated into one of the
//! enumerations below. Each mapping is total over the codes the respective
//! call is documented to produce; any other code is a contract violation on
//! the kernel's side and comes back as `None`, never as a wrong variant.
//!
//! The numeric codes are the platform's `errno` values for the doors host
//! system.

use vstd::prelude::*;

verus! {

/// Operation not permitted: the effective user is not the owner of the path
/// nor suitably privileged.
pub const EPERM: i32 = 1;

/// The path does not exist.
pub const ENOENT: i32 = 2;

/// A signal was caught during the call, the caller forked, or the server
/// exited during the invocation.
pub const EINTR: i32 = 4;

/// Arguments were too big for the server thread's stack.
pub const E2BIG: i32 = 7;

/// Not a valid open file descriptor.
pub const EBADF: i32 = 9;

/// The server was out of resources.
pub const EAGAIN: i32 = 11;

/// The user owns the path but lacks write permission, or the descriptor is
/// locked.
pub const EACCES: i32 = 13;

/// An argument pointer lay outside the allocated address space.
pub const EFAULT: i32 = 14;

/// The path is already a mount point or has a door attached.
pub const EBUSY: i32 = 16;

/// A component of the path prefix is not a directory.
pub const ENOTDIR: i32 = 20;

/// Bad arguments (invalid attributes, a foreign path, or a descriptor that
/// is not a door).
pub const EINVAL: i32 = 22;

/// More descriptors were passed than the door accepts.
pub const ENFILE: i32 = 23;

/// The process has too many open descriptors.
pub const EMFILE: i32 = 24;

/// Descriptor transfer was refused by the door.
pub const ENOTSUP: i32 = 48;

/// The path (or one of its components) is too long.
pub const ENAMETOOLONG: i32 = 78;

/// The system could not create the overflow area for results.
pub const EOVERFLOW: i32 = 79;

/// Too many symbolic links were met while translating the path.
pub const ELOOP: i32 = 90;

/// The data size lay outside the bounds the door was created with.
pub const ENOBUFS: i32 = 132;

/// Failures of the lifecycle calls: creating an entry point, attaching it to
/// the filesystem, and inspecting a door. One variant per distinct platform
/// error condition.
#[derive(Clone, Copy, Debug, PartialEq, Eq, Structural)]
pub enum Error {
    /// The user owns the path but lacks write permission, or the descriptor
    /// is locked.
    EACCES,
    /// The descriptor is not a valid open file descriptor.
    EBADF,
    /// The path is currently a mount point or already has a door attached.
    EBUSY,
    /// Invalid arguments: bad attributes at creation, a path in a remotely
    /// mounted directory, or a descriptor that is not a door.
    EINVAL,
    /// Too many symbolic links while translating the path.
    ELOOP,
    /// The process has too many open descriptors.
    EMFILE,
    /// The path, or one of its components, is too long.
    ENAMETOOLONG,
    /// The path does not exist.
    ENOENT,
    /// A component of the path prefix is not a directory.
    ENOTDIR,
    /// The effective user is not the owner of the path nor privileged.
    EPERM,
    /// A bad address was passed.
    EFAULT,
}

/// Failures of the call invocation itself, one per distinct platform error
/// code the call is documented to set.
#[derive(Clone, Copy, Debug, PartialEq, Eq, Structural)]
pub enum DoorCallError {
    /// Arguments were too big for the server thread's stack.
    E2BIG,
    /// The server was out of available resources.
    EAGAIN,
    /// An invalid door descriptor was passed.
    EBADF,
    /// Argument pointers pointed outside the allocated address space.
    EFAULT,
    /// A signal was caught in the client, the client forked, or the server
    /// exited during the invocation.
    EINTR,
    /// Bad arguments were passed.
    EINVAL,
    /// The client or server has too many open descriptors.
    EMFILE,
    /// More descriptors were passed than the door's parameter allows.
    ENFILE,
    /// The data size lay outside the bounds the door was created with.
    ENOBUFS,
    /// Descriptors were passed to a door that refuses them.
    ENOTSUP,
    /// The system could not create the overflow area for results.
    EOVERFLOW,
}

/// The typed error a failed call invocation reports for a given error code;
/// `None` for a code the call is not documented to set.
pub open spec fn spec_door_call_error(code: i32) -> Option<DoorCallError> {
    if code == E2BIG {
        Some(DoorCallError::E2BIG)
    } else if code == EAGAIN {
        Some(DoorCallError::EAGAIN)
    } else if code == EBADF {
        Some(DoorCallError::EBADF)
    } else if code == EFAULT {
        Some(DoorCallError::EFAULT)
    } else if code == EINTR {
        Some(DoorCallError::EINTR)
    } else if code == EINVAL {
        Some(DoorCallError::EINVAL)
    } else if code == EMFILE {
        Some(DoorCallError::EMFILE)
    } else if code == ENFILE {
        Some(DoorCallError::ENFILE)
    } else if code == ENOBUFS {
        Some(DoorCallError::ENOBUFS)
    } else if code == ENOTSUP {
        Some(DoorCallError::ENOTSUP)
    } else if code == EOVERFLOW {
        Some(DoorCallError::EOVERFLOW)
    } else {
        None
    }
}

/// Translate the error slot's value after a failed call invocation.
pub fn door_call_error_from_code(code: i32) -> (r: Option<DoorCallError>)
    ensures
        r == spec_door_call_error(code),
{
    if code == E2BIG {
        Some(DoorCallError::E2BIG)
    } else if code == EAGAIN {
        Some(DoorCallError::EAGAIN)
    } else if code == EBADF {
        Some(DoorCallError::EBADF)
    } else if code == EFAULT {
        Some(DoorCallError::EFAULT)
    } else if code == EINTR {
        Some(DoorCallError::EINTR)
    } else if code == EINVAL {
        Some(DoorCallError::EINVAL)
    } else if code == EMFILE {
        Some(DoorCallError::EMFILE)
    } else if code == ENFILE {
        Some(DoorCallError::ENFILE)
    } else if code == ENOBUFS {
        Some(DoorCallError::ENOBUFS)
    } else if code == ENOTSUP {
        Some(DoorCallError::ENOTSUP)
    } else if code == EOVERFLOW {
        Some(DoorCallError::EOVERFLOW)
    } else {
        None
    }
}

/// The typed error a failed filesystem attachment reports for a given error
/// code; `None` for a code the attachment call is not documented to set.
pub open spec fn spec_fattach_error(code: i32) -> Option<Error> {
    if code == EACCES {
        Some(Error::EACCES)
    } else if code == EBADF {
        Some(Error::EBADF)
    } else if code == EBUSY {
        Some(Error::EBUSY)
    } else if code == EINVAL {
        Some(Error::EINVAL)
    } else if code == ELOOP {
        Some(Error::ELOOP)
    } else if code == ENAMETOOLONG {
        Some(Error::ENAMETOOLONG)
    } else if code == ENOENT {
        Some(Error::ENOENT)
    } else if code == ENOTDIR {
        Some(Error::ENOTDIR)
    } else if code == EPERM {
        Some(Error::EPERM)
    } else {
        None
    }
}

/// Translate the error slot's value after a failed filesystem attachment.
pub fn fattach_error_from_code(code: i32) -> (r: Option<Error>)
    ensures
        r == spec_fattach_error(code),
{
    if code == EACCES {
        Some(Error::EACCES)
    } else if code == EBADF {
        Some(Error::EBADF)
    } else if code == EBUSY {
        Some(Error::EBUSY)
    } else if code == EINVAL {
        Some(Error::EINVAL)
    } else if code == ELOOP {
        Some(Error::ELOOP)
    } else if code == ENAMETOOLONG {
        Some(Error::ENAMETOOLONG)
    } else if code == ENOENT {
        Some(Error::ENOENT)
    } else if code == ENOTDIR {
        Some(Error::ENOTDIR)
    } else if code == EPERM {
        Some(Error::EPERM)
    } else {
        None
    }
}

/// The typed error a failed entry-point creation reports for a given error
/// code; `None` for a code the creation call is not documented to set.
pub open spec fn spec_door_create_error(code: i32) -> Option<Error> {
    if code == EINVAL {
        Some(Error::EINVAL)
    } else if code == EMFILE {
        Some(Error::EMFILE)
    } else {
        None
    }
}

/// Translate the error slot's value after a failed entry-point creation.
pub fn door_create_error_from_code(code: i32) -> (r: Option<Error>)
    ensures
        r == spec_door_create_error(code),
{
    if code == EINVAL {
        Some(Error::EINVAL)
    } else if code == EMFILE {
        Some(Error::EMFILE)
    } else {
        None
    }
}

/// The typed error a failed door inspection reports for a given error code;
/// `None` for a code the inspection call is not documented to set.
pub open spec fn spec_door_info_error(code: i32) -> Option<Error> {
    if code == EFAULT {
        Some(Error::EFAULT)
    } else if code == EBADF {
        Some(Error::EBADF)
    } else {
        None
    }
}

/// Translate the error slot's value after a failed door inspection.
pub fn door_info_error_from_code(code: i32) -> (r: Option<Error>)
    ensures
        r == spec_door_info_error(code),
{
    if code == EFAULT {
        Some(Error::EFAULT)
    } else if code == EBADF {
        Some(Error::EBADF)
    } else {
        None
    }
}

/// Error-code fidelity: a call that failed because the handle was invalid
/// (the platform reported `EBADF`) is reported as exactly the invalid-handle
/// error, and no other code maps to that error.
pub proof fn lemma_invalid_handle_fidelity()
    ensures
        spec_door_call_error(EBADF) == Some(DoorCallError::EBADF),
        forall|code: i32|
            spec_door_call_error(code) == Some(DoorCallError::EBADF) ==> code == EBADF,
{
}

/// Each call-failure code is translated to its own variant and to no other:
/// the mapping never confuses two distinct codes.
pub proof fn lemma_call_error_mapping_injective(a: i32, b: i32)
    requires
        spec_door_call_error(a) is Some,
        spec_door_call_error(a) == spec_door_call_error(b),
    ensures
        a == b,
{
}

} // verus!
