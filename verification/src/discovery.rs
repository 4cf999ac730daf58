//! Interrogation of ONVIF devices and the filtering of candidates.

pub mod discovery_utils;
pub mod filter;
pub mod marshaller;
pub mod xml;
