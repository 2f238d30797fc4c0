//! Saving a network device and making it again from what was saved.
use vstd::prelude::*;
use crate::devices::virtio::net::virtio::MacAddr;
use crate::devices::virtio::net::virtio::MmdsNetworkStack;
use crate::devices::virtio::queue::Queue;
use crate::guest_ram::GuestRam;
use crate::rate_limiter::RateLimiter;

verus! {

/// What is saved of the virtio backend of a network device.
#[derive(Clone, Debug)]
pub struct VirtioNetState {
    /// Name that the device is known by.
    pub id: String,
    /// Name of the host interface.
    pub tap_if_name: String,
    /// Limiter of received frames.
    pub rx_rate_limiter: RateLimiter,
    /// Limiter of sent frames.
    pub tx_rate_limiter: RateLimiter,
    /// Address of the metadata service, if the device serves it.
    pub mmds_ns: Option<MmdsNetworkStack>,
    /// Hardware address that the guest sees.
    pub guest_mac: Option<MacAddr>,
    /// Features that the device offers.
    pub avail_features: u64,
    /// Features that the driver has accepted.
    pub acked_features: u64,
    /// The queues of the device.
    pub queues: Vec<Queue>,
    /// Whether the device was activated.
    pub activated: bool,
}

/// What is saved of a network device.
#[derive(Clone, Debug)]
pub enum NetState {
    /// The state of the virtio backend.
    Virtio(VirtioNetState),
}

/// What making a device from a saved state needs besides the state.
#[derive(Clone, Debug)]
pub struct NetConstructorArgs {
    /// The memory of the guest.
    pub mem: GuestRam,
    /// True if the metadata service has a data store for the device to serve.
    pub mmds: bool,
}

} // verus!
