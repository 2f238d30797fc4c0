//! PCI structures that are emulated for the guest.
pub mod msix;
