//! The data exchanged between the discovery service and its workers.

pub mod device;
pub mod request;
