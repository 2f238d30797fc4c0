//! Devices that exist only to tell the host something.
use vstd::prelude::*;

verus! {

/// Value that the guest writes to the boot timer when it has finished booting.
pub const MAGIC_VALUE_SIGNAL_GUEST_BOOT_COMPLETE: u8 = 123;

/// A device to which the guest reports that it has finished booting.
#[derive(Copy, Clone, Debug, PartialEq, Eq, Structural)]
pub struct BootTimer {
    /// True once the guest has reported that it has booted.
    pub boot_complete: bool,
}

impl BootTimer {
    /// A boot timer to which nothing was reported.
    pub fn new() -> (t: Self)
        ensures
            !t.boot_complete,
    {
        BootTimer { boot_complete: false }
    }

    /// The timer after a write: the guest has booted if it writes the magic value as
    /// the first byte at offset 0.
    pub open spec fn spec_write(self, offset: u64, data: Seq<u8>) -> BootTimer {
        if offset == 0 && data.len() > 0 && data[0] == MAGIC_VALUE_SIGNAL_GUEST_BOOT_COMPLETE {
            BootTimer { boot_complete: true }
        } else {
            self
        }
    }

    /// Takes a guest write.
    pub fn bus_write(&mut self, offset: u64, data: &[u8])
        ensures
            *final(self) == old(self).spec_write(offset, data@),
    {
        if offset == 0 && data.len() > 0 && data[0] == MAGIC_VALUE_SIGNAL_GUEST_BOOT_COMPLETE {
            self.boot_complete = true;
        }
    }

    /// Answers a guest read: the timer has nothing to read, the buffer stays as it is.
    pub fn bus_read(&mut self, offset: u64, data: &mut [u8])
        ensures
            *final(self) == *old(self),
            final(data)@ == old(data)@,
    {
    }
}

} // verus!
