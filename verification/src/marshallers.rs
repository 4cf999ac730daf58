//! Conversion between the JSON wire form and the device model.

pub mod discover_response_marshaller;
