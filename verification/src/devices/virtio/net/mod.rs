//! The network device.
use vstd::prelude::*;

pub mod device;
pub mod persist;
pub mod virtio;

verus! {

/// Index of the queue on which the guest receives frames.
pub const RX_INDEX: usize = 0;

/// Index of the queue on which the guest sends frames.
pub const TX_INDEX: usize = 1;

/// Errors of the virtio backend of the network device.
#[derive(Copy, Clone, Debug, PartialEq, Eq, Structural)]
pub enum VirtioNetError {
    /// The host interface could not be opened; the host gave this error number.
    TapOpen(i32),
    /// The host interface could not be configured.
    TapSetup(i32),
    /// The name of the host interface is empty or too long.
    InvalidIfaceName,
}

/// Errors of restoring the virtio backend from a saved state.
#[derive(Copy, Clone, Debug, PartialEq, Eq, Structural)]
pub enum NetPersistError {
    /// The backend could not be made.
    CreateNet(VirtioNetError),
    /// The saved state does not have the two queues of a network device.
    QueueCount,
    /// The saved state has the device activated without guest memory to work on.
    NoMemory,
}

/// Errors of the network device.
#[derive(Copy, Clone, Debug, PartialEq, Eq, Structural)]
pub enum NetError {
    /// Error of the virtio backend.
    VirtioBackend(VirtioNetError),
    /// Error of restoring the backend.
    VirtioBackendPersist(NetPersistError),
    /// Error of the vhost backend.
    VhostBackend(VirtioNetError),
}

} // verus!
