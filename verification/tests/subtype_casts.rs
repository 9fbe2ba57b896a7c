//! The checked downcast operations every declared relation receives, driven
//! through the packet example: by value, by shared reference and by exclusive
//! reference.
use pcast::packet::{Packet, StatusMutRef, StatusPacket, StatusRef};
use pcast::subtype::{SubtypeOwned, SubtypeView, SubtypeViewMut};

/// send takes a raw packet to send
fn send(packet: &Packet) {
    let _ = packet.get_raw_payload();
    // ...
}

fn swallow_status_packet(_: StatusPacket) {
    // goodbye, s!
}

#[test]
fn casttest_test_send() {
    let mut owned = Packet::new(2, *b"0123456");
    send(&owned);

    {
        let status_view: StatusRef = StatusRef::downcast_ref(&owned).unwrap();
        send(status_view.base_ref());
    }

    let mut status_mut_ref: StatusMutRef = StatusMutRef::downcast_mut(&mut owned).unwrap();
    status_mut_ref.set_status_2(0x12);
    assert_eq!(status_mut_ref.get_status_2(), 0x12);
    send(status_mut_ref.base_ref());
}

#[test]
fn casttest_send_from_ref() {
    let mut owned = Packet::new(2, *b"0123456");

    let pref: &mut Packet = &mut owned;

    send(pref);

    {
        let status_view: StatusRef = StatusRef::downcast_ref(&(*pref)).unwrap();
        send(status_view.base_ref());
    }

    let mut status_mut_view: StatusMutRef = StatusMutRef::downcast_mut(pref).unwrap();
    status_mut_view.set_status_2(0x12);
    assert_eq!(status_mut_view.get_status_2(), 0x12);
    send(status_mut_view.base_ref());
}

#[test]
fn casttest_call_base_and_sub_methods() {
    let mut owned = Packet::new(2, *b"0123456");
    owned.set_raw_payload(*b"xxxxxxx");

    {
        let status_view: StatusRef = StatusRef::downcast_ref(&owned).unwrap();
        status_view.get_status_2();
        status_view.get_raw_payload();
    }

    let mut status_mut_view: StatusMutRef = StatusMutRef::downcast_mut(&mut owned).unwrap();
    status_mut_view.get_status_2();
    status_mut_view.get_raw_payload();
    status_mut_view.set_status_2(0x34);
    // does not compile (and shouldn't): the exclusive view exposes no base
    // mutator
    // status_mut_view.set_raw_payload(*b"xxxxxxx");
}

#[test]
fn casttest_create_from_immutable_ref() {
    let v = vec![Packet::new(2, *b"0123456")];

    for p in v.iter() {
        let status_view: StatusRef = StatusRef::downcast_ref(&(*p)).unwrap();
        status_view.get_status_2();
    }
}

#[test]
fn casttest_use_owned_status() {
    let p = Packet::new(2, *b"0123456");

    let s: StatusPacket = StatusPacket::downcast(p).unwrap();

    swallow_status_packet(s);
}

#[test]
fn lib_test_send() {
    let mut owned = Packet::new(2, *b"0123456");
    send(&owned);

    {
        let status_view: StatusRef = StatusRef::downcast_ref(&owned).unwrap();
        send(status_view.base_ref());
    }

    let mut status_mut_ref: StatusMutRef = StatusMutRef::downcast_mut(&mut owned).unwrap();
    status_mut_ref.set_status_2(0x12);
    assert_eq!(status_mut_ref.get_status_2(), 0x12);
    send(status_mut_ref.base_ref());
}

#[test]
fn lib_send_from_ref() {
    let mut owned = Packet::new(2, *b"0123456");

    let pref: &mut Packet = &mut owned;

    send(pref);

    {
        let status_view: StatusRef = StatusRef::downcast_ref(&(*pref)).unwrap();
        send(status_view.base_ref());
    }

    let mut status_mut_view: StatusMutRef = StatusMutRef::downcast_mut(pref).unwrap();
    status_mut_view.set_status_2(0x12);
    assert_eq!(status_mut_view.get_status_2(), 0x12);
    send(status_mut_view.base_ref());
}

#[test]
fn lib_call_base_and_sub_methods() {
    let mut owned = Packet::new(2, *b"0123456");
    owned.set_raw_payload(*b"xxxxxxx");

    {
        let status_view: StatusRef = StatusRef::downcast_ref(&owned).unwrap();
        status_view.get_status_2();
        status_view.get_raw_payload();
    }

    let mut status_mut_view: StatusMutRef = StatusMutRef::downcast_mut(&mut owned).unwrap();
    status_mut_view.get_status_2();
    status_mut_view.get_raw_payload();
    status_mut_view.set_status_2(0x34);
    // does not compile (and shouldn't): the exclusive view exposes no base
    // mutator
    // status_mut_view.set_raw_payload(*b"xxxxxxx");
}

#[test]
fn lib_create_from_immutable_ref() {
    let v = vec![Packet::new(2, *b"0123456")];

    for p in v.iter() {
        let status_view: StatusRef = StatusRef::downcast_ref(&(*p)).unwrap();
        status_view.get_status_2();
    }
}

#[test]
fn lib_use_owned_status() {
    let p = Packet::new(2, *b"0123456");

    let s: StatusPacket = StatusPacket::downcast(p).unwrap();

    swallow_status_packet(s);
}
