//! A verified model of the illumos doors call/response mechanism: the
//! marshaling of requests and responses, the ownership discipline for the
//! inbound buffer a call returns data in, descriptor transfer modes, and the
//! translation of kernel error codes into typed errors.
//!
//! Doors are a synchronous, kernel-mediated RPC facility: a client thread
//! invokes a named entry point in another process and blocks until that entry
//! point hands back a result. The kernel may answer either into the buffer
//! the caller supplied or into a freshly mapped region the caller then owns
//! and must unmap exactly once. This crate states and verifies that
//! bookkeeping; the actual system calls (door_call, door_create,
//! door_return, fattach) are unsafe foreign calls that live with the
//! unverified program around this library.

pub mod arg;
pub mod attrs;
pub mod call;
pub mod desc;
pub mod errors;
pub mod info;
pub mod server;

pub use arg::DoorArg;
pub use arg::DoorArgument;
pub use attrs::DoorAttributes;
pub use desc::DoorFd;
pub use errors::DoorCallError;
