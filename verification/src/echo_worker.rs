//! The worker that reports one synthetic device per description, and
//! none while it is marked offline.

use vstd::prelude::*;
use vstd::string::*;
use crate::discovery_handler::consumed;
use crate::discovery_handler::lemma_consumes_what_was_reported;
use crate::json::json_parse;
use crate::marshallers::discover_response_marshaller::MarshalError;
use crate::marshallers::discover_response_marshaller::response_tree;
use crate::models::device::Device;
use crate::models::device::DeviceView;
use crate::models::device::Properties;
use crate::models::device::device_views;
use crate::models::request::ConfigError;
use crate::models::request::DebugEchoDiscoveryDetails;
use crate::models::request::echo_details_decoder;
use crate::models::request::is_echo_details;
use crate::models::request::of_parsed;
use crate::models::request::parse_echo_details;
use crate::sandbox_bridge::SandboxBridge;
use crate::sandbox_bridge::with_output;
use crate::text::is_substring;
use crate::text::str_contains;

verus! {

/// The name under which echo discovery handlers register.
pub const DISCOVERY_HANDLER_NAME: &'static str = "debugEcho";

/// The environment variable that says whether the devices are shared
/// between nodes.
pub const DEBUG_ECHO_INSTANCES_SHARED_LABEL: &'static str = "DEBUG_ECHO_INSTANCES_SHARED";

/// The property that carries the description of a device.
pub const DEBUG_ECHO_DESCRIPTION_LABEL: &'static str = "DEBUG_ECHO_DESCRIPTION";

/// The time between two cycles of the worker, in seconds.
pub const DISCOVERY_INTERVAL_SECS: u64 = 1;

/// Where the worker writes the devices it found.
pub const OUTPUT_FILE_PATH: &'static str = "/tmp/wde-dir/out.out";

/// Where the service writes the discovery details.
pub const INPUT_FILE_PATH: &'static str = "/tmp/wde-dir/in.in";

/// Where the worker leaves a note that it is running.
pub const DEBUG_FILE_PATH: &'static str = "/tmp/wde-dir/debug.txt";

/// Where the availability marker is kept. Writing `OFFLINE` into it makes
/// the devices go away; any text without that word brings them back.
pub const DEBUG_ECHO_AVAILABILITY_CHECK_PATH: &'static str =
    "/tmp/wde-dir/debug-echo-availability.txt";

/// The word in the availability marker that makes the devices
/// undiscoverable.
pub const OFFLINE: &'static str = "OFFLINE";

/// Reads the discovery details out of a JSON text.
pub fn deserialize_discovery_details(discovery_details: &str) -> (details: Result<
    DebugEchoDiscoveryDetails,
    ConfigError,
>)
    ensures
        is_echo_details(details, of_parsed(json_parse(discovery_details@), echo_details_decoder())),
{
    parse_echo_details(discovery_details)
}

/// Whether the service has published discovery details.
pub fn has_input(bridge: &SandboxBridge) -> (ready: bool)
    ensures
        ready == bridge@.input is Some,
{
    bridge.input.is_some()
}

/// The descriptions that a text holds, and none where it holds no details.
pub open spec fn descriptions_or_none(text: Seq<char>) -> Seq<Seq<char>> {
    match of_parsed(json_parse(text), echo_details_decoder()) {
        Ok(descriptions) => descriptions,
        Err(_) => Seq::empty(),
    }
}

/// Reads the discovery details that the service published. Details that
/// cannot be read count as details without descriptions.
pub fn read_input_file(bridge: &SandboxBridge) -> (details: DebugEchoDiscoveryDetails)
    requires
        bridge@.input is Some,
    ensures
        details.descriptions.deep_view() == descriptions_or_none(bridge@.input->Some_0),
{
    let fallback = DebugEchoDiscoveryDetails { descriptions: Vec::new() };
    assert(fallback.descriptions.deep_view() =~= Seq::empty());
    match &bridge.input {
        Some(contents) => match deserialize_discovery_details(contents.as_str()) {
            Ok(details) => details,
            Err(_) => fallback,
        },
        None => fallback,
    }
}

/// Publishes the devices found, as JSON, in place of any earlier result.
pub fn write_output_file(bridge: &mut SandboxBridge, devices_json: String)
    ensures
        final(bridge)@ == with_output(old(bridge)@, devices_json@),
{
    bridge.output = Some(devices_json);
}

/// The device that stands for a description.
pub open spec fn echo_device(description: Seq<char>) -> DeviceView {
    DeviceView {
        id: description,
        properties: Map::<Seq<char>, Seq<char>>::empty().insert(
            DEBUG_ECHO_DESCRIPTION_LABEL@,
            description,
        ),
        mounts: Seq::empty(),
        device_specs: Seq::empty(),
    }
}

/// The devices that stand for a list of descriptions, in order.
pub open spec fn echo_devices(descriptions: Seq<Seq<char>>) -> Seq<DeviceView> {
    descriptions.map_values(|d: Seq<char>| echo_device(d))
}

/// Makes one device per description, in order.
pub fn devices_from_descriptions(descriptions: &Vec<String>) -> (devices: Vec<Device>)
    ensures
        device_views(devices@) == echo_devices(descriptions.deep_view()),
{
    let mut devices: Vec<Device> = Vec::new();
    let mut i: usize = 0;
    while i < descriptions.len()
        invariant
            i <= descriptions@.len(),
            devices@.len() == i,
            forall|j: int|
                0 <= j < i ==> (#[trigger] devices@[j])@ == echo_device(descriptions@[j]@),
        decreases descriptions@.len() - i,
    {
        let mut properties = Properties::new();
        properties.insert(String::from_str(DEBUG_ECHO_DESCRIPTION_LABEL), descriptions[i].clone());
        let device = Device {
            id: descriptions[i].clone(),
            properties,
            mounts: Vec::new(),
            device_specs: Vec::new(),
        };
        assert(device@.mounts =~= Seq::empty());
        assert(device@.device_specs =~= Seq::empty());
        devices.push(device);
        i = i + 1;
    }
    assert(device_views(devices@) =~= echo_devices(descriptions.deep_view()));
    devices
}

/// What the worker remembers between two cycles.
#[derive(Clone, Copy, Debug, PartialEq, Eq, Structural)]
pub struct EchoState {
    /// Whether the devices were last reported as gone.
    pub offline: bool,
    /// Whether nothing has been reported yet.
    pub first_loop: bool,
}

/// What the worker writes in one cycle.
#[derive(Clone, Copy, Debug, PartialEq, Eq, Structural)]
pub enum EchoReport {
    /// Nothing: the availability has not changed.
    Nothing,
    /// An empty list of devices.
    NoDevices,
    /// One device per description.
    Devices,
}

/// Whether an availability marker says that the devices are offline.
pub open spec fn says_offline(availability: Seq<char>) -> bool {
    is_substring(OFFLINE@, availability)
}

/// What one cycle reports. The first cycle reports what the worker
/// started with; a later one reports only a change of the availability.
pub open spec fn report_of(state: EchoState, offline_now: bool) -> EchoReport {
    if (offline_now && !state.offline) || (state.offline && state.first_loop) {
        EchoReport::NoDevices
    } else if (!offline_now && state.offline) || (!state.offline && state.first_loop) {
        EchoReport::Devices
    } else {
        EchoReport::Nothing
    }
}

/// What the worker remembers after a cycle with this report.
pub open spec fn state_after(state: EchoState, report: EchoReport) -> EchoState {
    match report {
        EchoReport::NoDevices => EchoState { offline: true, first_loop: false },
        EchoReport::Devices => EchoState { offline: false, first_loop: false },
        EchoReport::Nothing => state,
    }
}

impl EchoState {
    /// The state in which the worker starts, given the availability marker
    /// that it finds.
    pub fn start(availability: &str) -> (state: EchoState)
        ensures
            state == (EchoState { offline: says_offline(availability@), first_loop: true }),
    {
        EchoState { offline: str_contains(availability, OFFLINE), first_loop: true }
    }

    /// Decides what one cycle reports, given the availability marker as it
    /// stands; a missing marker is an empty one.
    pub fn step(&mut self, availability: &str) -> (report: EchoReport)
        ensures
            report == report_of(*old(self), says_offline(availability@)),
            *final(self) == state_after(*old(self), report),
            report != EchoReport::Nothing ==> !final(self).first_loop,
    {
        let offline_now = str_contains(availability, OFFLINE);
        if (offline_now && !self.offline) || (self.offline && self.first_loop) {
            self.first_loop = false;
            self.offline = true;
            EchoReport::NoDevices
        } else if (!offline_now && self.offline) || (!self.offline && self.first_loop) {
            self.first_loop = false;
            self.offline = false;
            EchoReport::Devices
        } else {
            EchoReport::Nothing
        }
    }
}

/// What the worker reports for a list of descriptions reaches the service
/// unchanged: one device per description, in order, with the description as
/// its identifier and under `DEBUG_ECHO_DESCRIPTION`; and where the
/// output artifact holds these devices in their wire form, consuming it
/// yields exactly them.
pub proof fn lemma_echo_devices_reach_the_service(descriptions: Seq<Seq<char>>, output: Seq<char>)
    ensures
        echo_devices(descriptions).len() == descriptions.len(),
        forall|i: int|
            0 <= i < descriptions.len() ==> (#[trigger] echo_devices(descriptions)[i]).id
                == descriptions[i] && echo_devices(descriptions)[i].properties.dom().contains(
                DEBUG_ECHO_DESCRIPTION_LABEL@,
            ) && echo_devices(descriptions)[i].properties[DEBUG_ECHO_DESCRIPTION_LABEL@]
                == descriptions[i],
        json_parse(output) == Some(response_tree(echo_devices(descriptions))) ==> consumed(
            Some(output),
        ) == Some(Ok::<Seq<DeviceView>, MarshalError>(echo_devices(descriptions))),
{
    lemma_consumes_what_was_reported(output, echo_devices(descriptions));
}

} // verus!
