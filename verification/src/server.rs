//! The server-side request/response wrapper.
//!
//! The kernel invokes a door's entry point through a five-parameter calling
//! convention: a cookie fixed at creation, a payload pointer and length, and
//! a descriptor-array pointer and count. The wrapper turns those into a
//! structured [`Request`], hands it to the user's logic, and turns the
//! resulting [`Response`] into the arguments of the terminal kernel call —
//! the call that hands control back to the waiting client and never returns
//! to the handler.
//!
//! Failure policy: a handler is a total function from request to response.
//! If user logic panics, the process aborts; the terminal call has no
//! channel for failure, so no error response is synthesized on its behalf.

use vstd::prelude::*;

use crate::arg::DoorArg;
use crate::arg::Region;
use crate::call::kernel_response_region;
use crate::call::spec_classify;
use crate::desc::DoorFd;

verus! {

/// The most descriptor records a response can carry.
pub const RESPONSE_DESC_MAX: usize = 2;

/// What can go wrong on the server side of a door.
#[derive(Clone, Copy, Debug, PartialEq, Eq, Structural)]
pub enum Error {
    /// A response already carries its full complement of descriptors.
    TooManyDescriptors,
    /// Creating the entry point failed, with the translated platform error.
    CreateDoor(crate::errors::Error),
    /// Attaching the entry point to the filesystem failed, with the
    /// translated platform error.
    AttachDoor(crate::errors::Error),
    /// A call through the door failed, with the raw error-slot value.
    DoorCall(i32),
}

/// One invocation's view of the client's arguments: the creation-time
/// cookie, the payload bytes, and the descriptors the client sent along.
/// The value lives only for the duration of the invocation.
#[derive(Clone, Debug, PartialEq, Eq)]
pub struct Request {
    /// The opaque value fixed when the entry point was created, handed back
    /// unchanged on every invocation.
    pub cookie: u64,
    /// The payload bytes the client sent.
    pub data: Vec<u8>,
    /// The descriptor records the client sent.
    pub descriptors: Vec<DoorFd>,
}

impl Request {
    /// Assemble the structured request the wrapper hands to user logic.
    pub fn new(cookie: u64, data: Vec<u8>, descriptors: Vec<DoorFd>) -> (r: Request)
        ensures
            r.cookie == cookie,
            r.data == data,
            r.descriptors == descriptors,
    {
        Request { cookie, data, descriptors }
    }
}

/// What user logic answers with: optional payload bytes (absent means a
/// zero-length reply) and up to [`RESPONSE_DESC_MAX`] descriptor records.
#[derive(Clone, Debug, PartialEq, Eq)]
pub struct Response {
    /// The reply bytes; `None` stands for a zero-length reply.
    pub data: Option<Vec<u8>>,
    /// The descriptor records to pass back, at most [`RESPONSE_DESC_MAX`].
    pub descriptors: Vec<DoorFd>,
}

/// The reply bytes a response puts on the wire: its payload, or nothing for
/// an absent one.
pub open spec fn spec_frame_data(resp: Response) -> Seq<u8> {
    match resp.data {
        Some(d) => d@,
        None => Seq::<u8>::empty(),
    }
}

impl Response {
    /// A response carries at most [`RESPONSE_DESC_MAX`] descriptors.
    pub open spec fn wf(self) -> bool {
        self.descriptors@.len() <= RESPONSE_DESC_MAX
    }

    /// A response replying with the given bytes and no descriptors.
    pub fn new(data: Vec<u8>) -> (r: Response)
        ensures
            r.data == Some(data),
            r.descriptors@ == Seq::<DoorFd>::empty(),
            r.wf(),
    {
        Response { data: Some(data), descriptors: Vec::new() }
    }

    /// A zero-length reply with no descriptors.
    pub fn empty() -> (r: Response)
        ensures
            r.data is None,
            r.descriptors@ == Seq::<DoorFd>::empty(),
            r.wf(),
    {
        Response { data: None, descriptors: Vec::new() }
    }

    /// Add one descriptor record to the response: the descriptor `fd`, to be
    /// released on transfer when `release` is set and duplicated otherwise.
    ///
    /// A response holds at most [`RESPONSE_DESC_MAX`] records; asking for a
    /// third is a caller error, reported as [`Error::TooManyDescriptors`].
    pub fn add_descriptor(self, fd: i32, release: bool) -> (r: Result<Response, Error>)
        ensures
            self.descriptors@.len() < RESPONSE_DESC_MAX ==> (r matches Ok(resp)
                && resp.data == self.data && resp.descriptors@ == self.descriptors@.push(
                DoorFd::spec_new(fd, release),
            )),
            self.descriptors@.len() >= RESPONSE_DESC_MAX ==> r == Err::<Response, Error>(
                Error::TooManyDescriptors,
            ),
            self.wf() ==> (r matches Ok(resp) ==> resp.wf()),
    {
        if self.descriptors.len() >= RESPONSE_DESC_MAX {
            Err(Error::TooManyDescriptors)
        } else {
            let Response { data, mut descriptors } = self;
            descriptors.push(DoorFd::new(fd, release));
            Ok(Response { data, descriptors })
        }
    }

    /// Turn the response into the arguments of the terminal kernel call.
    ///
    /// The frame's bytes are the reply's bytes (empty for an absent reply),
    /// and its descriptors are the response's records — cut down to
    /// [`RESPONSE_DESC_MAX`] if a caller bypassed [`Response::add_descriptor`]
    /// and stuffed in more, so that the terminal call never names more
    /// records than the protocol allows.
    pub fn into_frame(self) -> (r: ReturnFrame)
        ensures
            r.data@ == spec_frame_data(self),
            self.wf() ==> r.descriptors@ == self.descriptors@,
            !self.wf() ==> r.descriptors@ == self.descriptors@.take(RESPONSE_DESC_MAX as int),
            r.descriptors@.len() <= RESPONSE_DESC_MAX,
    {
        let Response { data, mut descriptors } = self;
        let bytes: Vec<u8> = match data {
            Some(d) => d,
            None => Vec::new(),
        };
        if descriptors.len() > RESPONSE_DESC_MAX {
            descriptors.truncate(RESPONSE_DESC_MAX);
            proof {
                assert(descriptors@ =~= self.descriptors@.take(RESPONSE_DESC_MAX as int));
            }
        }
        ReturnFrame { data: bytes, descriptors }
    }
}

/// The arguments the terminal kernel call is issued with: the reply bytes
/// and the descriptor records to pass back. Whatever the terminal call
/// references must stay valid until it executes; since that call never
/// returns control, values owned by the invocation are safe to name.
#[derive(Clone, Debug, PartialEq, Eq)]
pub struct ReturnFrame {
    /// The reply bytes to hand to the waiting caller.
    pub data: Vec<u8>,
    /// The descriptor records to pass back, at most [`RESPONSE_DESC_MAX`].
    pub descriptors: Vec<DoorFd>,
}

/// User logic behind an entry point: one invocation in, one response out.
///
/// The kernel lends a thread per invocation; several invocations of the
/// same procedure run concurrently and independently, so any state shared
/// between them (reached through the cookie) must bring its own
/// synchronization. A procedure must return; a panic aborts the process,
/// since the terminal call offers no channel for failure.
pub trait ServerProcedure {
    /// Handle one invocation.
    fn server_procedure(request: Request) -> Response;
}

/// The wrapper's whole journey for one invocation: from the raw calling
/// convention's values to the arguments of the terminal kernel call.
///
/// What the frame holds is decided by the user's procedure; this function
/// guarantees the framing itself — the frame never carries more than
/// [`RESPONSE_DESC_MAX`] descriptor records, whatever the procedure did.
pub fn dispatch<S: ServerProcedure>(cookie: u64, data: Vec<u8>, descriptors: Vec<DoorFd>) -> (r:
    ReturnFrame)
    ensures
        r.descriptors@.len() <= RESPONSE_DESC_MAX,
{
    let request = Request::new(cookie, data, descriptors);
    let response = S::server_procedure(request);
    response.into_frame()
}

/// Round trip: when a handler echoes the request's payload (its reply is
/// exactly the request's bytes), the view a successful call classifies —
/// borrowed or owned, whichever region the kernel answered into — holds
/// exactly the bytes the client sent.
pub proof fn lemma_round_trip(request: Request, resp: Response, supplied: Region, fresh: Region)
    requires
        resp.data == Some(request.data),
        fresh.base != supplied.base,
    ensures
        ({
            let returned = DoorArg {
                data: resp.data->Some_0,
                descriptors: resp.descriptors,
                rbuf: kernel_response_region(supplied, spec_frame_data(resp).len(), fresh),
            };
            spec_classify(supplied.base, returned).spec_inner().data@ == request.data@
        }),
{
}

/// Descriptor-mode fidelity: a record added to a response keeps its
/// transfer mode through framing. `before` and `after` are a response
/// before and after one successful [`Response::add_descriptor`] of `fd`
/// with mode `release`; the frame's last record is that record, and it
/// releases exactly when `release` was asked for.
pub proof fn lemma_descriptor_transfer_mode(
    before: Response,
    after: Response,
    fd: i32,
    release: bool,
)
    requires
        before.wf(),
        before.descriptors@.len() < RESPONSE_DESC_MAX,
        after.data == before.data,
        after.descriptors@ == before.descriptors@.push(DoorFd::spec_new(fd, release)),
    ensures
        after.wf(),
        after.descriptors@.last() == DoorFd::spec_new(fd, release),
        after.descriptors@.last().spec_will_release() == release,
        after.descriptors@.len() == before.descriptors@.len() + 1,
{
    assert((0x10000u32 | 0x40000u32) != 0x10000u32) by (bit_vector);
}

} // verus!
