//! Descriptor records: raw value and transfer mode.

use doors::desc::DOOR_DESCRIPTOR;
use doors::desc::DOOR_RELEASE;
use doors::DoorFd;

#[test]
fn mod_retain_door_desc_t() {
    let dd = DoorFd::new(-1, false);
    assert!(!dd.will_release());
}

#[test]
fn mod_release_door_desc_t() {
    let dd = DoorFd::new(-1, true);
    assert!(dd.will_release());
}

#[test]
fn lib_retain_door_desc_t() {
    let dd = DoorFd::new(-1, false);
    assert!(!dd.will_release());
}

#[test]
fn lib_release_door_desc_t() {
    let dd = DoorFd::new(-1, true);
    assert!(dd.will_release());
}

#[test]
fn mod_as_raw_fd() {
    let dd = DoorFd::new(-1, true);
    assert_eq!(dd.as_raw_fd(), -1);
}

#[test]
fn lib_as_raw_fd() {
    let dd = DoorFd::new(-1, true);
    assert_eq!(dd.as_raw_fd(), -1);
}

#[test]
fn descriptor_attribute_words() {
    let dup = DoorFd::new(7, false);
    assert_eq!(dup.d_attributes, DOOR_DESCRIPTOR);
    assert_eq!(dup.d_descriptor, 7);

    let rel = DoorFd::new(7, true);
    assert_eq!(rel.d_attributes, DOOR_DESCRIPTOR | DOOR_RELEASE);
    assert_eq!(rel.d_descriptor, 7);
}
