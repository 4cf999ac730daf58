//! Discovery of network devices: Include/Exclude filtering of candidate
//! devices, interpretation of ONVIF device answers, decoding of discovery
//! results exchanged as JSON, and the decisions of the polling and probing
//! loops that surround them.

pub mod discovery;
pub mod discovery_handler;
pub mod discovery_support;
pub mod echo_worker;
pub mod json;
pub mod marshallers;
pub mod models;
pub mod onvif_worker;
pub mod sandbox_bridge;
pub mod sequence;
pub mod text;
