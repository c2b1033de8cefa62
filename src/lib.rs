//! Control logic of a radio-to-USB dongle: a half-duplex request/acknowledge
//! exchange over an IEEE 802.15.4 radio, and an upper-casing echo over a USB
//! serial port, both driven from one cooperative polling loop.
//!
//! The library holds the decisions only. A driver performs the hardware work
//! that each returned action names and reports back what happened.
pub mod dongle;
pub mod echo;
pub mod laws;
pub mod usb;

pub use dongle::{Action, Dongle, Event, frame_line, SCAN_CYCLES};
pub use echo::{echo_chunk, upper, Echo, QUIT_BYTE};
pub use usb::PendingWrite;
