//! The direct view constructors on a record whose discriminant is already
//! known: shared and exclusive status views over the same bytes.
use pcast::packet::Packet;
use pcast::subtype::{SubtypeView, SubtypeViewMut};

/// send takes a raw packet to send
fn send(packet: &Packet) {
    let _ = packet.get_raw_payload();
    // ...
}

#[test]
fn viewtest_test_send() {
    let mut owned = Packet::new(2, *b"0123456");

    send(&owned);

    {
        let status_view = owned.get_status_ref();
        send(status_view.base_ref());
    }

    let mut status_mut_view = owned.get_status_mut_ref();
    status_mut_view.set_status_2(0x12);
    assert_eq!(status_mut_view.get_status_2(), 0x12);
    send(status_mut_view.base_ref());
}

#[test]
fn viewtest_send_from_ref() {
    let mut owned = Packet::new(2, *b"0123456");

    let pref: &mut Packet = &mut owned;

    send(pref);

    {
        let status_view = pref.get_status_ref();
        send(status_view.base_ref());
    }

    let mut status_mut_view = pref.get_status_mut_ref();
    status_mut_view.set_status_2(0x12);
    assert_eq!(status_mut_view.get_status_2(), 0x12);
    send(status_mut_view.base_ref());
}

#[test]
fn viewtest_call_base_and_sub_methods() {
    let mut owned = Packet::new(2, *b"0123456");
    owned.set_raw_payload(*b"xxxxxxx");

    {
        let status_view = owned.get_status_ref();
        status_view.get_status_2();
        status_view.get_raw_payload();
    }

    let mut status_mut_view = owned.get_status_mut_ref();
    status_mut_view.get_status_2();
    status_mut_view.get_raw_payload();
    status_mut_view.set_status_2(0x34);
    // does not compile (and shouldn't): the exclusive view exposes no base
    // mutator
    // status_mut_view.set_raw_payload(*b"xxxxxxx");
}

#[test]
fn viewtest_create_from_immutable_ref() {
    let v = vec![Packet::new(2, *b"0123456")];

    for p in v.iter() {
        let status_view = p.get_status_ref();
        status_view.get_status_2();
    }
}
