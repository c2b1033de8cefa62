use vstd::prelude::*;

verus! {

/// USB vendor identifier of the serial device.
pub const USB_VENDOR_ID: u16 = 0x16c0;

/// USB product identifier of the serial device.
pub const USB_PRODUCT_ID: u16 = 0x27dd;

/// Manufacturer string of the device descriptor.
pub const USB_MANUFACTURER: &'static str = "https://OpenShell.no";

/// Product string of the device descriptor.
pub const USB_PRODUCT: &'static str = "radio-usb-dongle";

/// Serial number string of the device descriptor.
pub const USB_SERIAL_NUMBER: &'static str = "TEST";

/// Maximum packet size of the control endpoint.
pub const USB_MAX_PACKET_SIZE_0: u8 = 64;

/// Capacity of the buffer that one USB read fills.
pub const USB_READ_CHUNK: usize = 64;

/// A write to the USB port that may take several attempts: the bytes, and how
/// many of them the port has accepted so far.
pub struct PendingWrite {
    bytes: Vec<u8>,
    sent: usize,
}

/// A pending write as values.
pub struct WriteProgress {
    pub bytes: Seq<u8>,
    pub sent: nat,
}

impl View for PendingWrite {
    type V = WriteProgress;

    closed spec fn view(&self) -> WriteProgress {
        WriteProgress { bytes: self.bytes@, sent: self.sent as nat }
    }
}

impl PendingWrite {
    pub closed spec fn wf(&self) -> bool {
        self.sent <= self.bytes@.len()
    }

    /// A write of `bytes` of which nothing is accepted yet.
    pub fn new(bytes: Vec<u8>) -> (r: PendingWrite)
        ensures
            r.wf(),
            r@.bytes == bytes@,
            r@.sent == 0,
    {
        PendingWrite { bytes, sent: 0 }
    }

    /// The bytes that the port has still to accept.
    pub fn remaining(&self) -> (r: &[u8])
        requires
            self.wf(),
        ensures
            r@ == self@.bytes.subrange(self@.sent as int, self@.bytes.len() as int),
    {
        let (_, rest) = self.bytes.as_slice().split_at(self.sent);
        rest
    }

    /// Records that the port accepted `n` more bytes; a count beyond what
    /// remained is taken as all of it.
    pub fn accept(&mut self, n: usize)
        requires
            old(self).wf(),
        ensures
            final(self).wf(),
            final(self)@.bytes == old(self)@.bytes,
            final(self)@.sent == if old(self)@.sent + n <= old(self)@.bytes.len() {
                old(self)@.sent + n
            } else {
                old(self)@.bytes.len() as int
            },
    {
        let left = self.bytes.len() - self.sent;
        if n <= left {
            self.sent = self.sent + n;
        } else {
            self.sent = self.bytes.len();
        }
    }

    /// Whether the port has accepted every byte.
    pub fn is_done(&self) -> (r: bool)
        requires
            self.wf(),
        ensures
            r == (self@.sent == self@.bytes.len()),
    {
        self.sent == self.bytes.len()
    }
}

} // verus!
