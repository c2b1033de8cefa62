use radio_usb_dongle::{frame_line, Action, Dongle, Event, SCAN_CYCLES};

fn armed() -> Dongle {
    let mut d = Dongle::new();
    assert_eq!(d.step(Event::Tick), vec![Action::ArmReceive]);
    d
}

#[test]
fn ping_frame_end_to_end() {
    let mut d = armed();
    assert!(d.is_receiving());
    assert_eq!(d.step(Event::Tick), vec![Action::PollReceive]);
    let acts = d.step(Event::Received(b"PING".to_vec()));
    assert_eq!(
        acts,
        vec![
            Action::WriteUsb(b"Received: PING\r\n".to_vec()),
            Action::Transmit(b"ACK".to_vec()),
            Action::EnergyScan(1),
        ]
    );
    assert!(!d.is_receiving());
    assert_eq!(d.step(Event::Tick), vec![Action::ArmReceive]);
    assert!(d.is_receiving());
}

#[test]
fn failed_receive_reports_and_scans_without_transmitting() {
    let mut d = armed();
    let acts = d.step(Event::ReceiveFailed);
    assert_eq!(
        acts,
        vec![Action::WriteUsb(b"RX failed\r\n".to_vec()), Action::EnergyScan(SCAN_CYCLES)]
    );
    assert!(!acts.iter().any(|a| matches!(a, Action::Transmit(_))));
    assert!(!d.is_receiving());
    assert_eq!(d.step(Event::Tick), vec![Action::ArmReceive]);
}

#[test]
fn armed_receive_is_polled_not_rearmed() {
    let mut d = armed();
    for _ in 0..5 {
        assert_eq!(d.step(Event::Tick), vec![Action::PollReceive]);
    }
}

#[test]
fn completion_without_armed_receive_is_ignored() {
    let mut d = Dongle::new();
    assert_eq!(d.step(Event::Received(b"x".to_vec())), vec![]);
    assert_eq!(d.step(Event::ReceiveFailed), vec![]);
    assert!(!d.is_receiving());
    assert!(!d.is_halted());
}

#[test]
fn arms_and_scans_balance_over_cycles() {
    let mut d = Dongle::new();
    let mut arms = 0;
    let mut scans = 0;
    let mut transmits = 0;
    let events = vec![
        Event::Tick,
        Event::Tick,
        Event::Received(b"one".to_vec()),
        Event::Tick,
        Event::UsbData(b"abc".to_vec()),
        Event::ReceiveFailed,
        Event::Tick,
        Event::Received(b"two".to_vec()),
        Event::Tick,
    ];
    for e in events {
        for a in d.step(e) {
            match a {
                Action::ArmReceive => arms += 1,
                Action::EnergyScan(_) => scans += 1,
                Action::Transmit(p) => {
                    assert_eq!(p, b"ACK".to_vec());
                    transmits += 1;
                }
                _ => {}
            }
        }
    }
    assert_eq!(arms, 4);
    assert_eq!(scans, 3);
    assert_eq!(transmits, 2);
    assert!(d.is_receiving());
}

#[test]
fn hello_q_echoes_prefix_then_halts() {
    let mut d = Dongle::new();
    let acts = d.step(Event::UsbData(b"hello Q".to_vec()));
    assert_eq!(acts, vec![Action::WriteUsb(b"HELLO ".to_vec()), Action::Halt]);
    assert!(d.is_halted());
}

#[test]
fn halted_loop_does_nothing_more() {
    let mut d = armed();
    assert_eq!(d.step(Event::UsbData(b"q".to_vec())), vec![Action::WriteUsb(vec![]), Action::Halt]);
    assert!(d.is_halted());
    assert_eq!(d.step(Event::Tick), vec![]);
    assert_eq!(d.step(Event::Received(b"PING".to_vec())), vec![]);
    assert_eq!(d.step(Event::ReceiveFailed), vec![]);
    assert_eq!(d.step(Event::UsbData(b"abc".to_vec())), vec![]);
    assert!(d.is_halted());
    assert!(d.is_receiving());
}

#[test]
fn usb_echo_keeps_radio_state() {
    let mut d = armed();
    assert_eq!(d.step(Event::UsbData(b"Mixed 42!".to_vec())), vec![Action::WriteUsb(b"MIXED 42!".to_vec())]);
    assert!(d.is_receiving());
    assert!(!d.is_halted());
}

#[test]
fn frame_line_wraps_payload() {
    assert_eq!(frame_line(b"PING"), b"Received: PING\r\n".to_vec());
    assert_eq!(frame_line(b""), b"Received: \r\n".to_vec());
    assert_eq!(frame_line(&[0xff, 0x00]), vec![b'R', b'e', b'c', b'e', b'i', b'v', b'e', b'd', b':', b' ', 0xff, 0x00, b'\r', b'\n']);
}
