//! The device types that a probe can ask for.

use vstd::prelude::*;

verus! {

/// The prefix under which a probe names the ONVIF device namespace.
pub const DEVICE_NAMESPACE_PREFIX: &'static str = "devwsdl";

/// The prefix under which a probe names the ONVIF network namespace.
pub const NETWORK_VIDEO_TRANSMITTER_NAMESPACE_PREFIX: &'static str = "netwsdl";

/// The ONVIF device namespace, with its prefix.
pub const DEVICE_NAMESPACE_DESCRIPTOR: &'static str =
    "devwsdl: http://www.onvif.org/ver10/device/wsdl";

/// The ONVIF network namespace, with its prefix.
pub const NETWORK_VIDEO_TRANSMITTER_NAMESPACE_DESCRIPTOR: &'static str =
    "netwsdl: http://www.onvif.org/ver10/network/wsdl";

/// The type of any ONVIF device.
pub const DEVICE: &'static str = "devwsdl:Device";

/// The type of a device that sends video over the network.
pub const NETWORK_VIDEO_TRANSMITTER: &'static str = "netwsdl:NetworkVideoTransmitter";

} // verus!
