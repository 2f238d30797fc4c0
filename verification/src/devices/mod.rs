//! Device models and the bus that routes guest accesses to them.
pub mod bus;
pub mod bus_range;
pub mod legacy;
pub mod pseudo;
pub mod virtio;
