use vstd::prelude::*;

verus! {

/// The serial port: a data byte, a control byte, and the bytes sent so far.
pub struct Serial {
    pub output: Vec<u8>,
    pub data: u8,
    pub control: u8,
}

/// The control value that starts a transfer.
pub const SERIAL_TRANSFER_START: u8 = 0x81;

impl Serial {
    pub open spec fn read_spec(self, address: u16) -> u8 {
        if address == 0xFF01 {
            self.data
        } else {
            self.control
        }
    }

    pub fn new() -> (r: Self)
        ensures
            r.output@ == Seq::<u8>::empty(),
            r.data == 0x00,
            r.control == 0x7E,
    {
        Serial { output: Vec::new(), data: 0x00, control: 0x7E }
    }

    pub fn read(&self, address: u16) -> (r: u8)
        requires
            address == 0xFF01 || address == 0xFF02,
        ensures
            r == self.read_spec(address),
    {
        if address == 0xFF01 {
            self.data
        } else {
            self.control
        }
    }

    /// A write of 0x81 to the control register sends the data byte and clears
    /// the control register.
    pub fn write(&mut self, address: u16, byte: u8)
        requires
            address == 0xFF01 || address == 0xFF02,
        ensures
            address == 0xFF01 ==> final(self).data == byte && final(self).control == old(
                self,
            ).control && final(self).output@ == old(self).output@,
            address == 0xFF02 && byte == SERIAL_TRANSFER_START ==> final(self).data == old(
                self,
            ).data && final(self).control == 0 && final(self).output@ == old(self).output@.push(
                old(self).data,
            ),
            address == 0xFF02 && byte != SERIAL_TRANSFER_START ==> final(self).data == old(
                self,
            ).data && final(self).control == byte && final(self).output@ == old(self).output@,
    {
        if address == 0xFF01 {
            self.data = byte;
        } else if byte == SERIAL_TRANSFER_START {
            self.output.push(self.data);
            self.control = 0;
        } else {
            self.control = byte;
        }
    }

    /// Hands out the bytes sent since the last call and forgets them.
    pub fn take_output(&mut self) -> (r: Vec<u8>)
        ensures
            r@ == old(self).output@,
            final(self).output@ == Seq::<u8>::empty(),
            final(self).data == old(self).data,
            final(self).control == old(self).control,
    {
        let mut out: Vec<u8> = Vec::new();
        std::mem::swap(&mut out, &mut self.output);
        out
    }
}

} // verus!
