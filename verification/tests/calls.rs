//! Classifying what a call left behind, and the ownership of the result.

use doors::arg::Region;
use doors::call::classify_after_call;
use doors::call::interpret_call;
use doors::DoorArg;
use doors::DoorArgument;
use doors::DoorCallError;
use doors::DoorFd;

fn record(data: &[u8], rbuf: Region) -> DoorArg {
    DoorArg::new(data.to_vec(), Vec::new(), rbuf)
}

#[test]
fn unchanged_address_classifies_borrowed() {
    let supplied = Region { base: 0x1000, len: 64 };
    let returned = record(b"answer", Region { base: 0x1000, len: 64 });
    let view = classify_after_call(supplied.base, returned);
    assert!(matches!(view, DoorArgument::BorrowedRbuf(_)));
    assert_eq!(view.data().as_slice(), b"answer");
    assert!(!view.is_owned());
    // Tearing a borrowed view down releases nothing.
    assert_eq!(view.release(), None);
}

#[test]
fn changed_address_classifies_owned() {
    let supplied = Region { base: 0x1000, len: 4 };
    let fresh = Region { base: 0x7f00_0000, len: 4096 };
    let returned = record(b"a longer answer", fresh);
    let view = classify_after_call(supplied.base, returned);
    assert!(matches!(view, DoorArgument::OwnedRbuf(_)));
    assert_eq!(view.data().as_slice(), b"a longer answer");
    assert_eq!(view.rbuf(), fresh);
    assert!(view.is_owned());
    // Tearing an owned view down names the mapped region, exactly once:
    // release consumes the view.
    assert_eq!(view.release(), Some(fresh));
}

#[test]
fn zero_capacity_buffer_always_ends_owned() {
    // With no space reserved, the kernel always answers in a fresh region,
    // whose address differs from the supplied one.
    let supplied = Region { base: 0x2000, len: 0 };
    let fresh = Region { base: 0x9000, len: 111 };
    let returned = record(&[0u8; 111], fresh);
    let view = classify_after_call(supplied.base, returned);
    assert!(view.is_owned());
    assert_eq!(view.rbuf().len, 111);
}

#[test]
fn borrowed_length_may_shrink_but_view_keeps_region() {
    // The kernel may report fewer bytes than the supplied capacity, never
    // more; the borrowed view carries the reported record as is.
    let supplied = Region { base: 0x3000, len: 1024 };
    let returned = record(b"short", Region { base: 0x3000, len: 1024 });
    let view = classify_after_call(supplied.base, returned);
    assert!(!view.is_owned());
    assert_eq!(view.data().len(), 5);
    assert_eq!(view.rbuf().len, 1024);
    assert_eq!(view.rbuf_addr(), 0x3000);
}

#[test]
fn descriptors_ride_along_unchanged() {
    let fd = DoorFd::new(12, true);
    let returned = DoorArg::new(Vec::new(), vec![fd], Region { base: 0x4000, len: 0 });
    let view = classify_after_call(0x1000, returned);
    assert_eq!(view.descriptors().len(), 1);
    assert_eq!(view.descriptors()[0], fd);
    assert!(view.descriptors()[0].will_release());
}

#[test]
fn successful_call_is_classified() {
    let returned = record(b"ok", Region { base: 0x5000, len: 32 });
    let out = interpret_call(0, 0, 0x5000, returned);
    let view = out.expect("successful call");
    assert!(!view.is_owned());
    assert_eq!(view.data().as_slice(), b"ok");
}

#[test]
fn failed_call_is_translated_not_classified() {
    let returned = record(b"", Region { base: 0, len: 0 });
    let out = interpret_call(-1, 9, 0x5000, returned);
    assert_eq!(out, Err(DoorCallError::EBADF));
}

#[test]
fn failed_call_against_closed_handle_is_invalid_handle() {
    // Error-code fidelity: a call failing with the invalid-handle code
    // yields exactly the invalid-handle error, never success.
    let returned = record(b"", Region { base: 0, len: 0 });
    let out = interpret_call(-1, 9, 0, returned);
    match out {
        Ok(_) => panic!("a failed call must not produce a view"),
        Err(e) => assert_eq!(e, DoorCallError::EBADF),
    }
}

#[test]
fn argument_accessors_report_what_was_supplied() {
    let supplied = Region { base: 0xabc0, len: 256 };
    let arg = DoorArgument::new(b"payload".to_vec(), vec![DoorFd::new(3, false)], supplied);
    assert_eq!(arg.data().as_slice(), b"payload");
    assert_eq!(arg.rbuf(), supplied);
    assert_eq!(arg.rbuf_addr(), 0xabc0);
    assert!(!arg.is_owned());
}

#[test]
fn borrowed_and_owned_constructors_tag_as_named() {
    let region = Region { base: 1, len: 2 };
    let b = DoorArgument::borrowed_rbuf(Vec::new(), Vec::new(), region);
    assert!(!b.is_owned());
    let o = DoorArgument::owned_rbuf(Vec::new(), Vec::new(), region);
    assert!(o.is_owned());
}
