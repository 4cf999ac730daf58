//! Support for finding devices on the local network.

pub mod onvif_discover;
