//! Version, device and driver-path queries over a graphics driver stack,
//! with the decisions of each query verified.

pub mod version;
pub mod error;
pub mod device;
pub mod shim;
