//! The parts of a SOAP envelope that probes and their replies share.

use vstd::prelude::*;

verus! {

/// The body of a probe: the device types asked for.
#[derive(Debug, PartialEq, Default)]
pub struct Probe {
    pub probe_types: Vec<String>,
}

/// One answer to a probe.
#[derive(Debug, PartialEq, Default)]
pub struct ProbeMatch {
    /// The service addresses of the device, separated by whitespace.
    pub xaddrs: String,
    pub endpoint_reference: String,
    pub probe_types: Vec<String>,
    pub scopes: Vec<String>,
    pub metadata_version: String,
}

/// The answers that one reply carries.
#[derive(Debug, PartialEq, Default)]
pub struct ProbeMatches {
    pub probe_match: Vec<ProbeMatch>,
}

} // verus!
