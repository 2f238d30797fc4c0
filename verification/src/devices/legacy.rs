//! Devices of the classic PC platform that a guest expects to find.
use vstd::prelude::*;
use crate::wire::read_u32;
use crate::wire::spec_u32_at;
use crate::wire::spec_u32_bytes;
use crate::wire::write_u32;

verus! {

/// Offset of the data port of the keyboard controller.
pub const I8042_OFS_DATA: u64 = 0;

/// Offset of the status and command port of the keyboard controller.
pub const I8042_OFS_STATUS: u64 = 4;

/// Command with which the guest pulses the reset line of the processor.
pub const I8042_CMD_RESET_CPU: u8 = 0xfe;

/// The keyboard controller, of which the guest uses the reset line.
#[derive(Copy, Clone, Debug, PartialEq, Eq, Structural)]
pub struct I8042Device {
    /// True once the guest has pulsed the reset line.
    pub reset_requested: bool,
}

impl I8042Device {
    /// A controller whose reset line was not pulsed.
    pub fn new() -> (d: Self)
        ensures
            !d.reset_requested,
    {
        I8042Device { reset_requested: false }
    }

    /// The controller after a write: a write of the reset command, as one byte, to the
    /// command port pulses the reset line.
    pub open spec fn spec_write(self, offset: u64, data: Seq<u8>) -> I8042Device {
        if offset == I8042_OFS_STATUS && data.len() == 1 && data[0] == I8042_CMD_RESET_CPU {
            I8042Device { reset_requested: true }
        } else {
            self
        }
    }

    /// What a read leaves in the buffer: a read of one byte from the data port or the
    /// status port gives zero, since no key is ever pressed; any other read leaves
    /// the buffer as it was.
    pub open spec fn spec_read(self, offset: u64, data: Seq<u8>) -> Seq<u8> {
        if data.len() == 1 && (offset == I8042_OFS_DATA || offset == I8042_OFS_STATUS) {
            seq![0u8]
        } else {
            data
        }
    }

    /// Takes a guest write.
    pub fn bus_write(&mut self, offset: u64, data: &[u8])
        ensures
            *final(self) == old(self).spec_write(offset, data@),
    {
        if offset == I8042_OFS_STATUS && data.len() == 1 && data[0] == I8042_CMD_RESET_CPU {
            self.reset_requested = true;
        }
    }

    /// Answers a guest read.
    pub fn bus_read(&mut self, offset: u64, data: &mut [u8])
        ensures
            *final(self) == *old(self),
            final(data)@ == old(self).spec_read(offset, old(data)@),
    {
        if data.len() == 1 && (offset == I8042_OFS_DATA || offset == I8042_OFS_STATUS) {
            data[0] = 0;
            proof {
                assert(data@ =~= seq![0u8]);
            }
        }
    }
}

/// Offset of the data register of the real time clock.
pub const RTC_OFS_DATA: u64 = 0x0;

/// Offset of the load register of the real time clock.
pub const RTC_OFS_LOAD: u64 = 0x8;

/// A real time clock that counts seconds.
#[derive(Copy, Clone, Debug, PartialEq, Eq, Structural)]
pub struct RTCDevice {
    /// The time in seconds.
    pub seconds: u32,
}

impl RTCDevice {
    /// A clock that shows `seconds`.
    pub fn new(seconds: u32) -> (d: Self)
        ensures
            d.seconds == seconds,
    {
        RTCDevice { seconds }
    }

    /// The clock after a write: four bytes written to the load register set the time.
    pub open spec fn spec_write(self, offset: u64, data: Seq<u8>) -> RTCDevice {
        if offset == RTC_OFS_LOAD && data.len() == 4 {
            RTCDevice { seconds: spec_u32_at(data, 0) as u32 }
        } else {
            self
        }
    }

    /// What a read leaves in the buffer: four bytes read from the data register give
    /// the time; any other read leaves the buffer as it was.
    pub open spec fn spec_read(self, offset: u64, data: Seq<u8>) -> Seq<u8> {
        if offset == RTC_OFS_DATA && data.len() == 4 {
            spec_u32_bytes(self.seconds)
        } else {
            data
        }
    }

    /// Takes a guest write.
    pub fn bus_write(&mut self, offset: u64, data: &[u8])
        ensures
            *final(self) == old(self).spec_write(offset, data@),
    {
        if offset == RTC_OFS_LOAD && data.len() == 4 {
            self.seconds = read_u32(data, 0);
        }
    }

    /// Answers a guest read.
    pub fn bus_read(&mut self, offset: u64, data: &mut [u8])
        ensures
            *final(self) == *old(self),
            final(data)@ == old(self).spec_read(offset, old(data)@),
    {
        if offset == RTC_OFS_DATA && data.len() == 4 {
            write_u32(data, self.seconds);
        }
    }
}

/// Offset of the transmit register of the serial port.
pub const SERIAL_OFS_DATA: u64 = 0;

/// Offset of the line status register of the serial port.
pub const SERIAL_OFS_LINE_STATUS: u64 = 5;

/// Offset of the scratch register of the serial port.
pub const SERIAL_OFS_SCRATCH: u64 = 7;

/// Line status of a port that can take the next byte: transmitter empty and idle.
pub const SERIAL_LINE_STATUS_IDLE: u8 = 0x60;

/// The serial port as a mathematical value.
pub struct SerialDeviceView {
    /// The bytes the guest has sent and the host has not taken yet.
    pub output: Seq<u8>,
    /// The scratch register.
    pub scratch: u8,
}

impl SerialDeviceView {
    /// The port after a write of one byte: to the transmit register it sends the
    /// byte, to the scratch register it sets that. Any other write changes nothing.
    pub open spec fn write(self, offset: u64, data: Seq<u8>) -> SerialDeviceView {
        if data.len() != 1 {
            self
        } else if offset == SERIAL_OFS_DATA {
            SerialDeviceView { output: self.output.push(data[0]), ..self }
        } else if offset == SERIAL_OFS_SCRATCH {
            SerialDeviceView { scratch: data[0], ..self }
        } else {
            self
        }
    }

    /// What a read of one byte leaves in the buffer: the line status says that the
    /// port can take the next byte, the scratch register gives what was written to
    /// it, every other register reads as zero. A read of another size leaves the
    /// buffer as it was.
    pub open spec fn read(self, offset: u64, data: Seq<u8>) -> Seq<u8> {
        if data.len() != 1 {
            data
        } else if offset == SERIAL_OFS_LINE_STATUS {
            seq![SERIAL_LINE_STATUS_IDLE]
        } else if offset == SERIAL_OFS_SCRATCH {
            seq![self.scratch]
        } else {
            seq![0u8]
        }
    }
}

/// A serial port on which the guest sends bytes to the host.
#[derive(Clone, Debug)]
pub struct SerialDevice {
    output: Vec<u8>,
    scratch: u8,
}

impl View for SerialDevice {
    type V = SerialDeviceView;

    closed spec fn view(&self) -> SerialDeviceView {
        SerialDeviceView { output: self.output@, scratch: self.scratch }
    }
}

impl SerialDevice {
    /// A port on which nothing was sent.
    pub fn new() -> (d: Self)
        ensures
            d@.output == Seq::<u8>::empty(),
            d@.scratch == 0,
    {
        SerialDevice { output: Vec::new(), scratch: 0 }
    }

    /// Takes the bytes that the guest has sent since they were last taken.
    pub fn take_output(&mut self) -> (out: Vec<u8>)
        ensures
            out@ == old(self)@.output,
            final(self)@.output == Seq::<u8>::empty(),
            final(self)@.scratch == old(self)@.scratch,
    {
        let mut out: Vec<u8> = Vec::new();
        core::mem::swap(&mut out, &mut self.output);
        out
    }

    /// Takes a guest write.
    pub fn bus_write(&mut self, offset: u64, data: &[u8])
        ensures
            final(self)@ == old(self)@.write(offset, data@),
    {
        if data.len() == 1 {
            if offset == SERIAL_OFS_DATA {
                self.output.push(data[0]);
            } else if offset == SERIAL_OFS_SCRATCH {
                self.scratch = data[0];
            }
        }
    }

    /// Answers a guest read.
    pub fn bus_read(&mut self, offset: u64, data: &mut [u8])
        ensures
            final(self)@ == old(self)@,
            final(data)@ == old(self)@.read(offset, old(data)@),
    {
        if data.len() == 1 {
            if offset == SERIAL_OFS_LINE_STATUS {
                data[0] = SERIAL_LINE_STATUS_IDLE;
            } else if offset == SERIAL_OFS_SCRATCH {
                data[0] = self.scratch;
            } else {
                data[0] = 0;
            }
            proof {
                assert(data@ =~= old(self)@.read(offset, old(data)@));
            }
        }
    }
}

} // verus!
