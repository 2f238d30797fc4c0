//! The block device: requests that the guest queues are carried out on a disk image.
pub mod device;
pub mod sync_io;
