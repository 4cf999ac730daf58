//! The worker that interrogates ONVIF cameras and reports those that pass
//! the filters.

use vstd::prelude::*;
use vstd::string::*;
use crate::json::json_parse;
use crate::models::device::Device;
use crate::models::device::DeviceView;
use crate::models::device::device_views;
use crate::models::request::ConfigError;
use crate::models::request::OnvifDiscoveryDetails;
use crate::models::request::OnvifDiscoveryDetailsView;
use crate::models::request::is_onvif_details;
use crate::models::request::of_parsed;
use crate::models::request::onvif_details_decoder;
use crate::models::request::parse_onvif_details;
use crate::sandbox_bridge::SandboxBridge;
use crate::sandbox_bridge::with_output;

pub use crate::discovery::filter::apply_filters;
pub use crate::discovery::filter::execute_filter;

verus! {

/// Where the worker writes the devices it found.
pub const OUTPUT_FILE_PATH: &'static str = "/tmp/wonvif-dir/out.out";

/// Where the service writes the discovery details.
pub const INPUT_FILE_PATH: &'static str = "/tmp/wonvif-dir/in.in";

/// Where the worker leaves a note that it is running.
pub const DEBUG_FILE_PATH: &'static str = "/tmp/wonvif-dir/debug.txt";

/// Where the service leaves the addresses that its probe found.
pub const URLS_FILE_PATH: &'static str = "/tmp/wonvif-dir/onvif-urls.txt";

/// The time between two cycles of the worker, in seconds.
pub const DISCOVERY_INTERVAL_SECS: u64 = 5;

/// The address of the device service that the worker interrogates.
pub const DEVICE_SERVICE_URL: &'static str = "http://127.0.0.1:1000/onvif/device_service";

/// The discovery details that the worker runs with: every filter excludes
/// nothing, and a probe waits one second.
pub const DISCOVERY_DETAILS: &'static str = r#"{
        "ipAddresses":  {
            "action": "Exclude",
            "items": []
        },
        "macAddresses": {
            "action": "Exclude",
            "items": []
        },
        "scopes": {
            "action": "Exclude",
            "items": []
        },
        "discoveryTimeoutSeconds": 1
    }"#;

/// Reads the discovery details out of a JSON text.
pub fn deserialize_discovery_details(discovery_details: &str) -> (details: Result<
    OnvifDiscoveryDetails,
    ConfigError,
>)
    ensures
        is_onvif_details(
            details,
            of_parsed(json_parse(discovery_details@), onvif_details_decoder()),
        ),
{
    parse_onvif_details(discovery_details)
}

/// Whether the service has published discovery details.
pub fn has_input(bridge: &SandboxBridge) -> (ready: bool)
    ensures
        ready == bridge@.input is Some,
{
    bridge.input.is_some()
}

/// The details that stand in where those of the worker cannot be read: no
/// filter, and a timeout of -1.
pub open spec fn fallback_details() -> OnvifDiscoveryDetailsView {
    OnvifDiscoveryDetailsView {
        ip_addresses: None,
        mac_addresses: None,
        scopes: None,
        discovery_timeout_seconds: -1i32,
    }
}

/// The details that a text holds, and the fallback where it holds none.
pub open spec fn details_or_fallback(text: Seq<char>) -> OnvifDiscoveryDetailsView {
    match of_parsed(json_parse(text), onvif_details_decoder()) {
        Ok(details) => details,
        Err(_) => fallback_details(),
    }
}

/// The discovery details that the worker runs with.
pub fn read_input_file() -> (details: OnvifDiscoveryDetails)
    ensures
        details@ == details_or_fallback(DISCOVERY_DETAILS@),
{
    match deserialize_discovery_details(DISCOVERY_DETAILS) {
        Ok(details) => details,
        Err(_) => OnvifDiscoveryDetails {
            ip_addresses: None,
            mac_addresses: None,
            scopes: None,
            discovery_timeout_seconds: -1,
        },
    }
}

/// The addresses of the device services to interrogate.
pub fn read_url_file() -> (urls: Vec<String>)
    ensures
        urls.deep_view() == seq![DEVICE_SERVICE_URL@],
{
    let mut result: Vec<String> = Vec::new();
    result.push(String::from_str(DEVICE_SERVICE_URL));
    assert(result.deep_view() =~= seq![DEVICE_SERVICE_URL@]);
    result
}

/// Publishes the devices found, as JSON, in place of any earlier result.
pub fn write_output_file(bridge: &mut SandboxBridge, devices_json: String)
    ensures
        final(bridge)@ == with_output(old(bridge)@, devices_json@),
{
    bridge.output = Some(devices_json);
}

/// `device` is among `devices`.
pub open spec fn holds(devices: Seq<DeviceView>, device: DeviceView) -> bool {
    exists|j: int| 0 <= j < devices.len() && #[trigger] devices[j] == device
}

/// Whether the cameras found differ from the cameras known: one that is
/// found is not known, or their numbers differ.
pub open spec fn list_changed(known: Seq<DeviceView>, found: Seq<DeviceView>) -> bool {
    (exists|i: int| 0 <= i < found.len() && !holds(known, #[trigger] found[i])) || found.len()
        != known.len()
}

fn is_known(known: &Vec<Device>, camera: &Device) -> (found: bool)
    ensures
        found == holds(device_views(known@), camera@),
{
    let mut j: usize = 0;
    while j < known.len()
        invariant
            j <= known@.len(),
            forall|k: int| 0 <= k < j ==> (#[trigger] known@[k])@ != camera@,
        decreases known@.len() - j,
    {
        if known[j] == *camera {
            assert(device_views(known@)[j as int] == camera@);
            return true;
        }
        j = j + 1;
    }
    assert forall|k: int| 0 <= k < device_views(known@).len() implies #[trigger] device_views(
        known@,
    )[k] != camera@ by {
        assert(device_views(known@)[k] == known@[k]@);
    }
    false
}

/// Decides whether the list of cameras found is to be published anew.
pub fn camera_list_changed(cameras: &Vec<Device>, filtered_onvif_cameras: &Vec<Device>) -> (changed:
    bool)
    ensures
        changed == list_changed(device_views(cameras@), device_views(filtered_onvif_cameras@)),
{
    let mut changed_camera_list = false;
    let mut matching_camera_count: usize = 0;
    let mut i: usize = 0;
    while i < filtered_onvif_cameras.len()
        invariant
            i <= filtered_onvif_cameras@.len(),
            matching_camera_count <= i,
            changed_camera_list <==> exists|k: int|
                0 <= k < i && !holds(
                    device_views(cameras@),
                    #[trigger] device_views(filtered_onvif_cameras@)[k],
                ),
            !changed_camera_list ==> matching_camera_count == i,
        decreases filtered_onvif_cameras@.len() - i,
    {
        assert(device_views(filtered_onvif_cameras@)[i as int] == filtered_onvif_cameras@[i as int]@);
        if !is_known(cameras, &filtered_onvif_cameras[i]) {
            changed_camera_list = true;
        } else {
            matching_camera_count = matching_camera_count + 1;
        }
        i = i + 1;
    }
    changed_camera_list || matching_camera_count != cameras.len()
}

} // verus!
