//! The SOAP envelope of a probe.

use vstd::prelude::*;
use crate::discovery_support::onvif_discover::common::Probe;

verus! {

/// A probe.
#[derive(Debug, PartialEq, Default)]
pub struct Envelope {
    pub header: Header,
    pub body: Body,
}

/// The body of a probe.
#[derive(Debug, PartialEq, Default)]
pub struct Body {
    pub probe: Probe,
}

/// The WS-Addressing headers of a probe.
#[derive(Debug, PartialEq, Default)]
pub struct Header {
    pub message_id: String,
    pub reply_to: String,
    pub action: String,
}

} // verus!
