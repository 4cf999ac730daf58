//! WS-Discovery of ONVIF cameras: the probe that is sent, the replies that
//! come back, and what the probing loop does with them.

pub mod common;
pub mod probe_types;
pub mod to_deserialize;
pub mod to_serialize;
pub mod util;
