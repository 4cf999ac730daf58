use device_discovery::discovery_handler::try_consume_response;
use device_discovery::echo_worker::devices_from_descriptions;
use device_discovery::echo_worker::write_output_file;
use device_discovery::sandbox_bridge::SandboxBridge;
use device_discovery::echo_worker::EchoReport;
use device_discovery::echo_worker::EchoState;
use device_discovery::echo_worker::DEBUG_ECHO_DESCRIPTION_LABEL;
use device_discovery::models::device::Device;
use device_discovery::models::device::DeviceSpec;
use device_discovery::models::device::Mount;
use device_discovery::models::device::Properties;
use device_discovery::onvif_worker::camera_list_changed;

fn strings(items: &[&str]) -> Vec<String> {
    items.iter().map(|s| s.to_string()).collect()
}

fn camera(id: &str, properties: &[(&str, &str)]) -> Device {
    let mut map = Properties::new();
    for (key, value) in properties {
        map.insert(key.to_string(), value.to_string());
    }
    Device { id: id.to_string(), properties: map, mounts: Vec::new(), device_specs: Vec::new() }
}

#[test]
fn one_device_per_description() {
    let devices = devices_from_descriptions(&strings(&["foo0", "foo1", "foo2"]));
    assert_eq!(devices.len(), 3);
    for (device, description) in devices.iter().zip(["foo0", "foo1", "foo2"]) {
        assert_eq!(device.id, description);
        assert_eq!(device.properties.len(), 1);
        assert_eq!(
            device.properties.get(DEBUG_ECHO_DESCRIPTION_LABEL),
            Some(&description.to_string())
        );
        assert!(device.mounts.is_empty());
        assert!(device.device_specs.is_empty());
    }
    assert!(devices_from_descriptions(&Vec::new()).is_empty());
}

#[test]
fn the_first_cycle_reports_the_devices_of_an_online_worker() {
    let mut state = EchoState::start("ONLINE");
    assert_eq!(state, EchoState { offline: false, first_loop: true });
    assert_eq!(state.step("ONLINE"), EchoReport::Devices);
    assert_eq!(state, EchoState { offline: false, first_loop: false });
    assert_eq!(state.step("ONLINE"), EchoReport::Nothing);
    assert_eq!(state.step(""), EchoReport::Nothing);
}

#[test]
fn the_first_cycle_reports_no_devices_of_an_offline_worker() {
    let mut state = EchoState::start("OFFLINE\n");
    assert_eq!(state, EchoState { offline: true, first_loop: true });
    assert_eq!(state.step("OFFLINE\n"), EchoReport::NoDevices);
    assert_eq!(state, EchoState { offline: true, first_loop: false });
    assert_eq!(state.step("OFFLINE\n"), EchoReport::Nothing);
}

#[test]
fn a_worker_that_started_offline_stays_so_in_its_first_cycle() {
    let mut state = EchoState::start("OFFLINE");
    assert_eq!(state.step("ONLINE"), EchoReport::NoDevices);
    assert_eq!(state.step("ONLINE"), EchoReport::Devices);
    assert_eq!(state.step("ONLINE"), EchoReport::Nothing);
}

#[test]
fn only_a_change_of_availability_is_reported() {
    let mut state = EchoState::start("");
    let reports: Vec<EchoReport> =
        ["", "", "OFFLINE", "now OFFLINE still", "", "", "OFFLINE", "offline", "ONLINE"]
            .iter()
            .map(|availability| state.step(availability))
            .collect();
    assert_eq!(
        reports,
        vec![
            EchoReport::Devices,
            EchoReport::Nothing,
            EchoReport::NoDevices,
            EchoReport::Nothing,
            EchoReport::Devices,
            EchoReport::Nothing,
            EchoReport::NoDevices,
            EchoReport::Devices,
            EchoReport::Nothing,
        ]
    );
}

#[test]
fn properties_hold_one_value_per_name() {
    let mut properties = Properties::new();
    assert_eq!(properties.len(), 0);
    assert_eq!(properties.get("a"), None);
    properties.insert("a".to_string(), "1".to_string());
    properties.insert("b".to_string(), "2".to_string());
    properties.insert("a".to_string(), "3".to_string());
    assert_eq!(properties.len(), 2);
    assert_eq!(properties.get("a"), Some(&"3".to_string()));
    assert_eq!(properties.get("b"), Some(&"2".to_string()));
    assert_eq!(properties.get(""), None);
    assert_eq!(properties.get("ab"), None);
    let mut names: Vec<&str> = properties.entries().iter().map(|e| e.0.as_str()).collect();
    names.sort();
    assert_eq!(names, vec!["a", "b"]);
}

#[test]
fn properties_are_equal_whatever_the_order_of_insertion() {
    let mut first = Properties::new();
    first.insert("a".to_string(), "1".to_string());
    first.insert("b".to_string(), "2".to_string());
    let mut second = Properties::new();
    second.insert("b".to_string(), "0".to_string());
    second.insert("a".to_string(), "1".to_string());
    assert_ne!(first, second);
    second.insert("b".to_string(), "2".to_string());
    assert_eq!(first, second);
    assert_eq!(first.clone(), second);
    second.insert("c".to_string(), "3".to_string());
    assert_ne!(first, second);
    assert_ne!(second, first);
    let mut third = Properties::new();
    third.insert("a".to_string(), "1".to_string());
    third.insert("c".to_string(), "2".to_string());
    assert_ne!(first, third);
    assert_eq!(Properties::new(), Properties::new());
}

#[test]
fn devices_are_compared_field_by_field() {
    let device = Device {
        id: "cam".to_string(),
        properties: Properties::new(),
        mounts: vec![Mount {
            container_path: "/c".to_string(),
            host_path: "/h".to_string(),
            read_only: true,
        }],
        device_specs: vec![DeviceSpec {
            container_path: "/dev/c".to_string(),
            host_path: "/dev/h".to_string(),
            permissions: "rw".to_string(),
        }],
    };
    let same = device.clone();
    assert_eq!(device, same);

    let mut other = device.clone();
    other.id = "cam2".to_string();
    assert_ne!(device, other);

    let mut other = device.clone();
    other.properties.insert("k".to_string(), "v".to_string());
    assert_ne!(device, other);

    let mut other = device.clone();
    other.mounts[0].read_only = false;
    assert_ne!(device, other);

    let mut other = device.clone();
    other.mounts.clear();
    assert_ne!(device, other);

    let mut other = device.clone();
    other.device_specs[0].permissions = "r".to_string();
    assert_ne!(device, other);

    let mut other = device.clone();
    other.device_specs.push(other.device_specs[0].clone());
    assert_ne!(device, other);
}

#[test]
fn the_camera_list_changes_when_a_camera_is_new() {
    let known = vec![camera("a", &[("ip", "1")])];
    let found = vec![camera("b", &[("ip", "2")])];
    assert!(camera_list_changed(&known, &found));
    let found = vec![camera("a", &[("ip", "9")])];
    assert!(camera_list_changed(&known, &found));
}

#[test]
fn the_camera_list_changes_when_the_numbers_differ() {
    let known = vec![camera("a", &[]), camera("b", &[])];
    assert!(camera_list_changed(&known, &vec![camera("a", &[])]));
    assert!(camera_list_changed(&known, &Vec::new()));
    assert!(camera_list_changed(&Vec::new(), &vec![camera("a", &[])]));
    assert!(camera_list_changed(&vec![camera("a", &[])], &vec![camera("a", &[]), camera("a", &[])]));
}

#[test]
fn the_camera_list_is_unchanged_when_the_same_cameras_are_found() {
    assert!(!camera_list_changed(&Vec::new(), &Vec::new()));
    let known = vec![camera("a", &[("ip", "1"), ("mac", "x")]), camera("b", &[])];
    let found = vec![camera("b", &[]), camera("a", &[("mac", "x"), ("ip", "1")])];
    assert!(!camera_list_changed(&known, &found));
}

/// The JSON text of a list of devices, member by member.
fn wire_form(devices: &[Device]) -> String {
    let mut list = Vec::new();
    for device in devices {
        let mut properties = serde_json::Map::new();
        for (name, value) in device.properties.entries() {
            properties.insert(name.clone(), serde_json::Value::String(value.clone()));
        }
        let mut mounts = Vec::new();
        for mount in &device.mounts {
            let mut object = serde_json::Map::new();
            object.insert(
                "container_path".to_string(),
                serde_json::Value::String(mount.container_path.clone()),
            );
            object.insert("host_path".to_string(), serde_json::Value::String(mount.host_path.clone()));
            object.insert("read_only".to_string(), serde_json::Value::Bool(mount.read_only));
            mounts.push(serde_json::Value::Object(object));
        }
        let mut specs = Vec::new();
        for spec in &device.device_specs {
            let mut object = serde_json::Map::new();
            object.insert(
                "container_path".to_string(),
                serde_json::Value::String(spec.container_path.clone()),
            );
            object.insert("host_path".to_string(), serde_json::Value::String(spec.host_path.clone()));
            object.insert(
                "permissions".to_string(),
                serde_json::Value::String(spec.permissions.clone()),
            );
            specs.push(serde_json::Value::Object(object));
        }
        let mut object = serde_json::Map::new();
        object.insert("id".to_string(), serde_json::Value::String(device.id.clone()));
        object.insert("properties".to_string(), serde_json::Value::Object(properties));
        object.insert("mounts".to_string(), serde_json::Value::Array(mounts));
        object.insert("device_specs".to_string(), serde_json::Value::Array(specs));
        list.push(serde_json::Value::Object(object));
    }
    let mut response = serde_json::Map::new();
    response.insert("devices".to_string(), serde_json::Value::Array(list));
    serde_json::Value::Object(response).to_string()
}

#[test]
fn what_the_echo_worker_reports_is_what_the_service_consumes() {
    for descriptions in [
        strings(&["foo0", "foo1", "foo2"]),
        strings(&[]),
        strings(&["one"]),
        strings(&["same", "same"]),
        strings(&["with \"quotes\"", "back\\slash", "line\nbreak", "ünï©ødé", ""]),
    ] {
        let reported = devices_from_descriptions(&descriptions);
        let mut bridge = SandboxBridge::new();
        write_output_file(&mut bridge, wire_form(&reported));
        let consumed = try_consume_response(&mut bridge).unwrap().unwrap();
        assert_eq!(consumed.devices, reported);
        let ids: Vec<&String> = consumed.devices.iter().map(|d| &d.id).collect();
        assert_eq!(ids, descriptions.iter().collect::<Vec<&String>>());
        assert!(try_consume_response(&mut bridge).is_none());
    }
}

#[test]
fn devices_with_mounts_and_specs_decode_from_their_wire_form() {
    let mut device = camera("cam", &[("a", "1"), ("b", "two words")]);
    device.mounts.push(Mount {
        container_path: "/c".to_string(),
        host_path: "/h".to_string(),
        read_only: true,
    });
    device.device_specs.push(DeviceSpec {
        container_path: "/dev/c".to_string(),
        host_path: "/dev/h".to_string(),
        permissions: "rwm".to_string(),
    });
    let devices = vec![device, camera("other", &[])];
    let mut bridge = SandboxBridge::new();
    write_output_file(&mut bridge, wire_form(&devices));
    assert_eq!(try_consume_response(&mut bridge).unwrap().unwrap().devices, devices);
}
