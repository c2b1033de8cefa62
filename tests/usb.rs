use radio_usb_dongle::usb::{USB_MAX_PACKET_SIZE_0, USB_PRODUCT, USB_READ_CHUNK};
use radio_usb_dongle::PendingWrite;

#[test]
fn partial_writes_advance_until_done() {
    let mut w = PendingWrite::new(b"HELLO".to_vec());
    assert!(!w.is_done());
    assert_eq!(w.remaining(), b"HELLO");
    w.accept(3);
    assert_eq!(w.remaining(), b"LO");
    assert!(!w.is_done());
    w.accept(0);
    assert_eq!(w.remaining(), b"LO");
    w.accept(2);
    assert!(w.is_done());
    assert_eq!(w.remaining(), b"");
}

#[test]
fn over_acceptance_is_capped() {
    let mut w = PendingWrite::new(b"ab".to_vec());
    w.accept(usize::MAX);
    assert!(w.is_done());
    assert_eq!(w.remaining(), b"");
}

#[test]
fn empty_write_is_done_at_once() {
    let w = PendingWrite::new(vec![]);
    assert!(w.is_done());
}

#[test]
fn usb_descriptor_constants() {
    assert_eq!(USB_PRODUCT, "radio-usb-dongle");
    assert_eq!(USB_MAX_PACKET_SIZE_0, 64);
    assert_eq!(USB_READ_CHUNK, 64);
}
