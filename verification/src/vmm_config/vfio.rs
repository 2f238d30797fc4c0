//! The passthrough devices that the operator asks for.
use vstd::prelude::*;

verus! {

/// The passthrough devices of a guest.
#[derive(Clone, Debug)]
pub struct VfioConfig {
    /// The paths of the devices on the host, one for each device.
    pub paths: Vec<String>,
}

} // verus!
