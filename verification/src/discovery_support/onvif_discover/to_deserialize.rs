//! The SOAP envelope of a reply to a probe.

use vstd::prelude::*;
use crate::discovery_support::onvif_discover::common::ProbeMatches;

verus! {

/// A reply to a probe.
#[derive(Debug, PartialEq, Default)]
pub struct Envelope {
    pub header: Header,
    pub body: Body,
}

/// The body of a reply: the answers it carries.
#[derive(Debug, PartialEq, Default)]
pub struct Body {
    pub probe_matches: ProbeMatches,
}

/// The WS-Addressing header of a reply.
#[derive(Debug, PartialEq, Default)]
pub struct Header {
    pub relates_to: String,
}

} // verus!
