//! What the operator configures.
pub mod vfio;
