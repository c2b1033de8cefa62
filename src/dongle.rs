use vstd::prelude::*;
use crate::echo::{echo_chunk, echo_of, halts};

verus! {

/// The radio channel, which must match the listening peer.
pub const RADIO_CHANNEL: u8 = 20;

/// Transmit power in dBm.
pub const TX_POWER_DBM: i8 = 8;

/// Sample cycles of the energy-detection scan that quiets the channel.
pub const SCAN_CYCLES: u32 = 1;

/// The acknowledgement sent back for every good frame: `ACK`.
pub open spec fn ack_payload() -> Seq<u8> {
    seq![0x41u8, 0x43u8, 0x4bu8]
}

/// `Received: ` in ASCII.
pub open spec fn received_prefix() -> Seq<u8> {
    seq![0x52u8, 0x65u8, 0x63u8, 0x65u8, 0x69u8, 0x76u8, 0x65u8, 0x64u8, 0x3au8, 0x20u8]
}

/// Carriage return and line feed.
pub open spec fn line_end() -> Seq<u8> {
    seq![0x0du8, 0x0au8]
}

/// The USB line that reports a good frame.
pub open spec fn received_line(payload: Seq<u8>) -> Seq<u8> {
    received_prefix() + payload + line_end()
}

/// `RX failed\r\n` in ASCII: the USB line that reports a failed receive.
pub open spec fn rx_failed_line() -> Seq<u8> {
    seq![0x52u8, 0x58u8, 0x20u8, 0x66u8, 0x61u8, 0x69u8, 0x6cu8, 0x65u8, 0x64u8, 0x0du8, 0x0au8]
}

/// The loop's state: whether a receive is armed, and whether the dongle stopped.
pub struct Mode {
    pub receiving: bool,
    pub halted: bool,
}

/// The state the loop starts in.
pub open spec fn initial_mode() -> Mode {
    Mode { receiving: false, halted: false }
}

/// What the driver reports to the loop.
#[derive(Debug, PartialEq, Eq)]
pub enum Event {
    /// The radio's turn in a pass of the loop.
    Tick,
    /// An armed receive completed with a valid checksum; the frame's payload.
    Received(Vec<u8>),
    /// An armed receive completed with a checksum failure.
    ReceiveFailed,
    /// Bytes read from the USB serial port.
    UsbData(Vec<u8>),
}

/// An event as a mathematical value.
pub enum Ev {
    Tick,
    Received(Seq<u8>),
    ReceiveFailed,
    UsbData(Seq<u8>),
}

impl View for Event {
    type V = Ev;

    open spec fn view(&self) -> Ev {
        match self {
            Event::Tick => Ev::Tick,
            Event::Received(p) => Ev::Received(p@),
            Event::ReceiveFailed => Ev::ReceiveFailed,
            Event::UsbData(d) => Ev::UsbData(d@),
        }
    }
}

/// What the loop asks the driver to do, in the order given.
#[derive(Debug, PartialEq, Eq)]
pub enum Action {
    /// Arm the radio to receive into the packet buffer.
    ArmReceive,
    /// Ask the radio whether the armed receive completed, and report it if so.
    PollReceive,
    /// Write all of these bytes to the USB serial port.
    WriteUsb(Vec<u8>),
    /// Send these bytes as one radio frame.
    Transmit(Vec<u8>),
    /// Run an energy-detection scan of this many sample cycles.
    EnergyScan(u32),
    /// Stop for good.
    Halt,
}

/// An action as a mathematical value.
pub enum Act {
    Arm,
    Poll,
    Usb(Seq<u8>),
    Tx(Seq<u8>),
    Scan(u32),
    Halt,
}

impl View for Action {
    type V = Act;

    open spec fn view(&self) -> Act {
        match self {
            Action::ArmReceive => Act::Arm,
            Action::PollReceive => Act::Poll,
            Action::WriteUsb(b) => Act::Usb(b@),
            Action::Transmit(b) => Act::Tx(b@),
            Action::EnergyScan(n) => Act::Scan(*n),
            Action::Halt => Act::Halt,
        }
    }
}

/// The actions of a list, as values.
pub open spec fn acts_of(v: Seq<Action>) -> Seq<Act> {
    v.map_values(|a: Action| a@)
}

/// One step of the loop: the next state and the actions, for a state and an event.
/// A stopped loop does nothing more; a completion reported while no receive is
/// armed is ignored.
pub open spec fn next(m: Mode, e: Ev) -> (Mode, Seq<Act>) {
    if m.halted {
        (m, seq![])
    } else {
        match e {
            Ev::Tick => if m.receiving {
                (m, seq![Act::Poll])
            } else {
                (Mode { receiving: true, halted: false }, seq![Act::Arm])
            },
            Ev::Received(p) => if m.receiving {
                (
                    Mode { receiving: false, halted: false },
                    seq![Act::Usb(received_line(p)), Act::Tx(ack_payload()), Act::Scan(SCAN_CYCLES)],
                )
            } else {
                (m, seq![])
            },
            Ev::ReceiveFailed => if m.receiving {
                (
                    Mode { receiving: false, halted: false },
                    seq![Act::Usb(rx_failed_line()), Act::Scan(SCAN_CYCLES)],
                )
            } else {
                (m, seq![])
            },
            Ev::UsbData(d) => if halts(d) {
                (Mode { receiving: m.receiving, halted: true }, seq![Act::Usb(echo_of(d)), Act::Halt])
            } else {
                (m, seq![Act::Usb(echo_of(d))])
            },
        }
    }
}

/// The state and all actions after a sequence of events.
pub open spec fn run(m: Mode, evs: Seq<Ev>) -> (Mode, Seq<Act>)
    decreases evs.len(),
{
    if evs.len() == 0 {
        (m, seq![])
    } else {
        let (m1, a1) = run(m, evs.drop_last());
        let (m2, a2) = next(m1, evs.last());
        (m2, a1 + a2)
    }
}

/// The state of the cooperative loop that drives radio and USB.
pub struct Dongle {
    receiving: bool,
    halted: bool,
}

impl View for Dongle {
    type V = Mode;

    closed spec fn view(&self) -> Mode {
        Mode { receiving: self.receiving, halted: self.halted }
    }
}

fn ack() -> (r: Vec<u8>)
    ensures
        r@ == ack_payload(),
{
    let r = vec![0x41u8, 0x43u8, 0x4bu8];
    assert(r@ =~= ack_payload());
    r
}

fn rx_failed() -> (r: Vec<u8>)
    ensures
        r@ == rx_failed_line(),
{
    let r = vec![0x52u8, 0x58u8, 0x20u8, 0x66u8, 0x61u8, 0x69u8, 0x6cu8, 0x65u8, 0x64u8, 0x0du8, 0x0au8];
    assert(r@ =~= rx_failed_line());
    r
}

/// Frames a received payload as a USB line: `Received: `, the bytes, `\r\n`.
pub fn frame_line(payload: &[u8]) -> (r: Vec<u8>)
    ensures
        r@ == received_line(payload@),
{
    let mut r = vec![0x52u8, 0x65u8, 0x63u8, 0x65u8, 0x69u8, 0x76u8, 0x65u8, 0x64u8, 0x3au8, 0x20u8];
    assert(r@ =~= received_prefix());
    let mut i: usize = 0;
    while i < payload.len()
        invariant
            0 <= i <= payload@.len(),
            r@ == received_prefix() + payload@.take(i as int),
        decreases payload@.len() - i,
    {
        r.push(payload[i]);
        assert(payload@.take(i + 1) =~= payload@.take(i as int).push(payload@[i as int]));
        assert(r@ =~= received_prefix() + payload@.take(i + 1));
        i = i + 1;
    }
    assert(payload@.take(i as int) =~= payload@);
    r.push(0x0du8);
    r.push(0x0au8);
    assert(r@ =~= received_line(payload@));
    r
}

impl Dongle {
    /// A loop with no receive armed, not stopped.
    pub fn new() -> (r: Dongle)
        ensures
            r@ == initial_mode(),
    {
        Dongle { receiving: false, halted: false }
    }

    /// Whether a receive is armed.
    pub fn is_receiving(&self) -> (r: bool)
        ensures
            r == self@.receiving,
    {
        self.receiving
    }

    /// Whether the loop stopped for good.
    pub fn is_halted(&self) -> (r: bool)
        ensures
            r == self@.halted,
    {
        self.halted
    }

    /// Takes one event and returns the actions to perform, in order.
    pub fn step(&mut self, ev: Event) -> (r: Vec<Action>)
        ensures
            (final(self)@, acts_of(r@)) == next(old(self)@, ev@),
    {
        let mut r: Vec<Action> = Vec::new();
        if self.halted {
            assert(acts_of(r@) =~= seq![]);
            return r;
        }
        match ev {
            Event::Tick => {
                if self.receiving {
                    r.push(Action::PollReceive);
                } else {
                    self.receiving = true;
                    r.push(Action::ArmReceive);
                }
            },
            Event::Received(p) => {
                if self.receiving {
                    self.receiving = false;
                    r.push(Action::WriteUsb(frame_line(p.as_slice())));
                    r.push(Action::Transmit(ack()));
                    r.push(Action::EnergyScan(SCAN_CYCLES));
                }
            },
            Event::ReceiveFailed => {
                if self.receiving {
                    self.receiving = false;
                    r.push(Action::WriteUsb(rx_failed()));
                    r.push(Action::EnergyScan(SCAN_CYCLES));
                }
            },
            Event::UsbData(d) => {
                let e = echo_chunk(d.as_slice());
                r.push(Action::WriteUsb(e.output));
                if e.halt {
                    self.halted = true;
                    r.push(Action::Halt);
                }
            },
        }
        assert(acts_of(r@) =~= next(old(self)@, ev@).1);
        r
    }
}

} // verus!
