//! Paravirtualized devices.
use vstd::prelude::*;

pub mod balloon;
pub mod block;
pub mod mmio;
pub mod net;
pub mod queue;
pub mod rng;

verus! {

/// Device type of a network device.
pub const TYPE_NET: u32 = 1;

/// Device type of a block device.
pub const TYPE_BLOCK: u32 = 2;

/// Device type of an entropy source.
pub const TYPE_RNG: u32 = 4;

/// Device type of a memory balloon.
pub const TYPE_BALLOON: u32 = 5;

/// Device type of a socket device.
pub const TYPE_VSOCK: u32 = 19;

/// Whether a device has been started by its driver.
#[derive(Copy, Clone, Debug, PartialEq, Eq, Structural)]
pub enum DeviceState {
    /// The driver has not reported ready; the queues of the device are not looked at.
    Inactive,
    /// The driver has reported ready; the device works on its queues.
    Activated,
}

impl DeviceState {
    /// True for a device that has been started.
    pub fn is_activated(&self) -> (b: bool)
        ensures
            b == (*self == DeviceState::Activated),
    {
        match self {
            DeviceState::Activated => true,
            DeviceState::Inactive => false,
        }
    }
}

} // verus!
