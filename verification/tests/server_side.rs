//! The server-side wrapper: requests, responses, framing, and whole
//! call/response scenarios run through the library's pipeline.

use doors::arg::Region;
use doors::call::classify_after_call;
use doors::server::dispatch;
use doors::server::Error;
use doors::server::Request;
use doors::server::Response;
use doors::server::ServerProcedure;
use doors::DoorFd;

#[test]
fn request_carries_the_raw_values() {
    let req = Request::new(42, b"abc".to_vec(), vec![DoorFd::new(5, false)]);
    assert_eq!(req.cookie, 42);
    assert_eq!(req.data, b"abc".to_vec());
    assert_eq!(req.descriptors.len(), 1);
}

#[test]
fn response_new_holds_data_and_no_descriptors() {
    let resp = Response::new(b"reply".to_vec());
    assert_eq!(resp.data, Some(b"reply".to_vec()));
    assert!(resp.descriptors.is_empty());
}

#[test]
fn response_empty_is_a_zero_length_reply() {
    let resp = Response::empty();
    assert_eq!(resp.data, None);
    assert!(resp.descriptors.is_empty());
    let frame = resp.into_frame();
    assert!(frame.data.is_empty());
    assert!(frame.descriptors.is_empty());
}

#[test]
fn two_descriptors_fit_a_third_is_refused() {
    let resp = Response::empty().add_descriptor(3, true).unwrap();
    let resp = resp.add_descriptor(4, false).unwrap();
    assert_eq!(resp.descriptors.len(), 2);
    assert!(resp.descriptors[0].will_release());
    assert!(!resp.descriptors[1].will_release());
    let third = resp.add_descriptor(5, true);
    assert_eq!(third, Err(Error::TooManyDescriptors));
}

#[test]
fn frame_keeps_reply_bytes_and_descriptors() {
    let resp = Response::new(b"bytes".to_vec()).add_descriptor(9, true).unwrap();
    let frame = resp.into_frame();
    assert_eq!(frame.data, b"bytes".to_vec());
    assert_eq!(frame.descriptors.len(), 1);
    assert_eq!(frame.descriptors[0].as_raw_fd(), 9);
    assert!(frame.descriptors[0].will_release());
}

#[test]
fn frame_never_names_more_than_two_descriptors() {
    // A response assembled by hand, past the constructor's guard, is cut
    // down at the frame so the terminal call stays within the protocol.
    let resp = Response {
        data: None,
        descriptors: vec![
            DoorFd::new(1, false),
            DoorFd::new(2, false),
            DoorFd::new(3, false),
        ],
    };
    let frame = resp.into_frame();
    assert_eq!(frame.descriptors.len(), 2);
    assert_eq!(frame.descriptors[0].as_raw_fd(), 1);
    assert_eq!(frame.descriptors[1].as_raw_fd(), 2);
}

struct Capitalize;

impl ServerProcedure for Capitalize {
    fn server_procedure(request: Request) -> Response {
        let upper: Vec<u8> = request.data.iter().map(|b| b.to_ascii_uppercase()).collect();
        Response::new(upper)
    }
}

#[test]
fn capitalize_scenario_reports_thirteen_bytes() {
    // An entry point that upper-cases ASCII text, called with
    // "hello, world!" (13 bytes): the reply is "HELLO, WORLD!" with
    // reported length 13.
    let frame = dispatch::<Capitalize>(0, b"hello, world!".to_vec(), Vec::new());
    assert_eq!(frame.data, b"HELLO, WORLD!".to_vec());
    assert_eq!(frame.data.len(), 13);
    assert!(frame.descriptors.is_empty());
}

struct Echo;

impl ServerProcedure for Echo {
    fn server_procedure(request: Request) -> Response {
        Response::new(request.data)
    }
}

#[test]
fn echo_round_trip_through_borrowed_buffer() {
    // The reply fits the supplied buffer: the kernel reuses it, the view is
    // borrowed, and the bytes are exactly the payload.
    let payload = b"round trip".to_vec();
    let supplied = Region { base: 0x6000, len: 1024 };

    let frame = dispatch::<Echo>(0, payload.clone(), Vec::new());
    let returned = doors::DoorArg::new(frame.data, frame.descriptors, supplied);
    let view = classify_after_call(supplied.base, returned);

    assert!(!view.is_owned());
    assert_eq!(view.data().as_slice(), payload.as_slice());
}

#[test]
fn echo_round_trip_through_owned_region() {
    // The reply does not fit: the kernel answers in a fresh mapping, the
    // view is owned, and the bytes are still exactly the payload.
    let payload = vec![7u8; 64];
    let supplied = Region { base: 0x6000, len: 8 };
    let fresh = Region { base: 0x7000, len: 64 };

    let frame = dispatch::<Echo>(0, payload.clone(), Vec::new());
    let returned = doors::DoorArg::new(frame.data, frame.descriptors, fresh);
    let view = classify_after_call(supplied.base, returned);

    assert!(view.is_owned());
    assert_eq!(view.data().as_slice(), payload.as_slice());
    // The owned mapping is released exactly once, when the view is torn
    // down.
    assert_eq!(view.release(), Some(fresh));
}

struct OpenAndHandBack;

impl ServerProcedure for OpenAndHandBack {
    fn server_procedure(request: Request) -> Response {
        // Stands for a handler that opens the path named in the payload and
        // hands the resulting descriptor back with release semantics. The
        // descriptor value is fixed here; actually opening a file is the
        // surrounding program's business.
        let fd = if request.data.is_empty() { -1 } else { 17 };
        Response::empty().add_descriptor(fd, true).unwrap()
    }
}

#[test]
fn open_scenario_returns_exactly_one_release_descriptor() {
    let frame = dispatch::<OpenAndHandBack>(0, b"/tmp/hello.txt".to_vec(), Vec::new());
    assert!(frame.data.is_empty());
    assert_eq!(frame.descriptors.len(), 1);
    assert_eq!(frame.descriptors[0].as_raw_fd(), 17);
    assert!(frame.descriptors[0].will_release());
}

struct CookieReporter;

impl ServerProcedure for CookieReporter {
    fn server_procedure(request: Request) -> Response {
        Response::new(request.cookie.to_be_bytes().to_vec())
    }
}

#[test]
fn cookie_reaches_the_handler_unchanged() {
    let frame = dispatch::<CookieReporter>(0x1122_3344_5566_7788, Vec::new(), Vec::new());
    assert_eq!(frame.data, 0x1122_3344_5566_7788u64.to_be_bytes().to_vec());
}
