//! Device dispatch and passthrough core of a lightweight virtual machine monitor.
//!
//! The crate holds the logic that decides: how guest accesses are routed to device
//! models, how PCI passthrough devices are sized, placed and emulated, and how the
//! guest address space is laid out. Talking to the host kernel is left to the caller,
//! which hands plain values in and carries the decisions out.
pub mod arch;
pub mod bits;
pub mod devices;
pub mod event_manager;
pub mod guest_ram;
pub mod harness;
pub mod memory;
pub mod pci;
pub mod rate_limiter;
pub mod resources;
pub mod vfio;
pub mod vmm_config;
pub mod wire;
