//! Decoding of the devices that a worker reports as JSON.

use vstd::prelude::*;
use vstd::string::*;
use crate::json::JsonTree;
use crate::json::json_member;
use crate::json::json_members;
use crate::json::json_parse;
use crate::json::json_render;
use crate::json::json_text;
use crate::json::json_tree;
use crate::json::lists_members;
use crate::json::member_of;
use crate::json::parse_json;
use crate::json::trees_of;
use crate::models::device::Device;
use crate::models::device::DeviceSpec;
use crate::models::device::DeviceSpecView;
use crate::models::device::DeviceView;
use crate::models::device::Mount;
use crate::models::device::MountView;
use crate::models::device::Properties;
use crate::models::device::device_spec_views;
use crate::models::device::device_views;
use crate::models::device::mount_views;
use crate::sequence::lemma_try_map_fails_on;
use crate::sequence::lemma_try_map_inverts;
use crate::sequence::lemma_try_map_step;
use crate::sequence::try_map;

verus! {

/// The devices found in one poll cycle.
#[derive(Debug)]
pub struct DiscoverResponse {
    pub devices: Vec<Device>,
}

/// Why a text does not decode into a response.
#[derive(Clone, Copy, Debug, PartialEq, Eq, Structural)]
pub enum MarshalError {
    /// The text is not JSON.
    NotJson,
    /// The member `devices` is missing or is no array.
    DevicesNotArray,
    /// The member `properties` of a device is missing or is no object.
    PropertiesNotObject,
    /// The member `mounts` of a device is no array of mounts.
    MalformedMount,
    /// The member `device_specs` of a device is no array of device
    /// specifications.
    MalformedDeviceSpec,
}

/// The string form of a JSON value: the text of a string, and the compact
/// JSON text of any other value.
pub open spec fn string_form(tree: JsonTree) -> Seq<char> {
    match tree {
        JsonTree::String(text) => text,
        _ => json_text(tree),
    }
}

/// The properties that a JSON value holds: the members of an object, each
/// in its string form.
pub open spec fn properties_of(tree: JsonTree) -> Result<Map<Seq<char>, Seq<char>>, MarshalError> {
    match tree {
        JsonTree::Object(members) => Ok(members.map_values(|t: JsonTree| string_form(t))),
        _ => Err(MarshalError::PropertiesNotObject),
    }
}

/// The mount that a JSON value holds.
pub open spec fn mount_of(tree: JsonTree) -> Result<MountView, MarshalError> {
    match (
        member_of(tree, "container_path"@),
        member_of(tree, "host_path"@),
        member_of(tree, "read_only"@),
    ) {
        (
            JsonTree::String(container_path),
            JsonTree::String(host_path),
            JsonTree::Bool(read_only),
        ) => Ok(MountView { container_path, host_path, read_only }),
        _ => Err(MarshalError::MalformedMount),
    }
}

/// The device specification that a JSON value holds.
pub open spec fn device_spec_of(tree: JsonTree) -> Result<DeviceSpecView, MarshalError> {
    match (
        member_of(tree, "container_path"@),
        member_of(tree, "host_path"@),
        member_of(tree, "permissions"@),
    ) {
        (
            JsonTree::String(container_path),
            JsonTree::String(host_path),
            JsonTree::String(permissions),
        ) => Ok(DeviceSpecView { container_path, host_path, permissions }),
        _ => Err(MarshalError::MalformedDeviceSpec),
    }
}

/// `mount_of`, as a function value.
pub open spec fn mount_decoder() -> spec_fn(JsonTree) -> Result<MountView, MarshalError> {
    |t: JsonTree| mount_of(t)
}

/// `device_spec_of`, as a function value.
pub open spec fn device_spec_decoder() -> spec_fn(JsonTree) -> Result<
    DeviceSpecView,
    MarshalError,
> {
    |t: JsonTree| device_spec_of(t)
}

/// `device_of`, as a function value.
pub open spec fn device_decoder() -> spec_fn(JsonTree) -> Result<DeviceView, MarshalError> {
    |t: JsonTree| device_of(t)
}

/// The mounts that the member `mounts` of a device holds: none where the
/// member is missing, those of an array otherwise.
pub open spec fn mounts_of(tree: JsonTree) -> Result<Seq<MountView>, MarshalError> {
    match tree {
        JsonTree::Null => Ok(Seq::empty()),
        JsonTree::Array(items) => try_map(items, mount_decoder()),
        _ => Err(MarshalError::MalformedMount),
    }
}

/// The device specifications that the member `device_specs` of a device
/// holds: none where the member is missing, those of an array otherwise.
pub open spec fn device_specs_of(tree: JsonTree) -> Result<Seq<DeviceSpecView>, MarshalError> {
    match tree {
        JsonTree::Null => Ok(Seq::empty()),
        JsonTree::Array(items) => try_map(items, device_spec_decoder()),
        _ => Err(MarshalError::MalformedDeviceSpec),
    }
}

/// The device that a JSON value holds. Its identifier is the string form of
/// the member `id`.
pub open spec fn device_of(tree: JsonTree) -> Result<DeviceView, MarshalError> {
    match properties_of(member_of(tree, "properties"@)) {
        Err(e) => Err(e),
        Ok(properties) => match mounts_of(member_of(tree, "mounts"@)) {
            Err(e) => Err(e),
            Ok(mounts) => match device_specs_of(member_of(tree, "device_specs"@)) {
                Err(e) => Err(e),
                Ok(device_specs) => Ok(
                    DeviceView {
                        id: string_form(member_of(tree, "id"@)),
                        properties,
                        mounts,
                        device_specs,
                    },
                ),
            },
        },
    }
}

/// The devices that a JSON value holds under `devices`, in order; or the
/// error of the first device that does not decode.
pub open spec fn response_of(tree: JsonTree) -> Result<Seq<DeviceView>, MarshalError> {
    match member_of(tree, "devices"@) {
        JsonTree::Array(items) => try_map(items, device_decoder()),
        _ => Err(MarshalError::DevicesNotArray),
    }
}

/// The devices that a text holds, given what the text parses to.
pub open spec fn response_of_parsed(parsed: Option<JsonTree>) -> Result<
    Seq<DeviceView>,
    MarshalError,
> {
    match parsed {
        None => Err(MarshalError::NotJson),
        Some(tree) => response_of(tree),
    }
}

/// `got` is the response, or the error, that `expected` names.
pub open spec fn is_response(
    got: Result<DiscoverResponse, MarshalError>,
    expected: Result<Seq<DeviceView>, MarshalError>,
) -> bool {
    match got {
        Ok(response) => expected == Ok::<Seq<DeviceView>, MarshalError>(
            device_views(response.devices@),
        ),
        Err(e) => expected == Err::<Seq<DeviceView>, MarshalError>(e),
    }
}

/// `got` is the device, or the error, that `expected` names.
pub open spec fn is_device(
    got: Result<Device, MarshalError>,
    expected: Result<DeviceView, MarshalError>,
) -> bool {
    match got {
        Ok(device) => expected == Ok::<DeviceView, MarshalError>(device@),
        Err(e) => expected == Err::<DeviceView, MarshalError>(e),
    }
}

/// The string form of a JSON value.
pub fn value_to_string(value: &serde_json::Value) -> (text: String)
    ensures
        text@ == string_form(json_tree(*value)),
{
    match value.as_str() {
        Some(content) => content.to_owned(),
        None => json_render(value),
    }
}

fn properties_from_json(value: &serde_json::Value) -> (properties: Result<
    Properties,
    MarshalError,
>)
    ensures
        match properties {
            Ok(p) => properties_of(json_tree(*value)) == Ok::<
                Map<Seq<char>, Seq<char>>,
                MarshalError,
            >(p@),
            Err(e) => properties_of(json_tree(*value)) == Err::<
                Map<Seq<char>, Seq<char>>,
                MarshalError,
            >(e),
        },
{
    let entries = match json_members(value) {
        Some(entries) => entries,
        None => {
            return Err(MarshalError::PropertiesNotObject);
        },
    };
    let ghost members = json_tree(*value)->Object_0;
    let ghost target = members.map_values(|t: JsonTree| string_form(t));
    let mut properties = Properties::new();
    let mut i: usize = 0;
    while i < entries.len()
        invariant
            i <= entries@.len(),
            lists_members(entries@, members),
            target == members.map_values(|t: JsonTree| string_form(t)),
            forall|key: Seq<char>| #[trigger]
                properties@.dom().contains(key) <==> exists|j: int|
                    0 <= j < i && (#[trigger] entries@[j]).0@ == key,
            forall|key: Seq<char>| #[trigger]
                properties@.dom().contains(key) ==> properties@[key] == target[key],
        decreases entries@.len() - i,
    {
        let key = entries[i].0.clone();
        let text = value_to_string(entries[i].1);
        let ghost before = properties@;
        properties.insert(key, text);
        proof {
            assert forall|k: Seq<char>| #[trigger]
                properties@.dom().contains(k) <==> exists|j: int|
                    0 <= j < i + 1 && (#[trigger] entries@[j]).0@ == k by {
                if properties@.dom().contains(k) {
                    if k == entries@[i as int].0@ {
                    } else {
                        assert(before.dom().contains(k));
                        let j = choose|j: int| 0 <= j < i && (#[trigger] entries@[j]).0@ == k;
                        assert(0 <= j < i + 1 && entries@[j].0@ == k);
                    }
                }
                if exists|j: int| 0 <= j < i + 1 && (#[trigger] entries@[j]).0@ == k {
                    let j = choose|j: int| 0 <= j < i + 1 && (#[trigger] entries@[j]).0@ == k;
                    if j < i {
                        assert(before.dom().contains(k));
                    }
                }
            }
        }
        i = i + 1;
    }
    proof {
        assert forall|k: Seq<char>| properties@.dom().contains(k) <==> target.dom().contains(
            k,
        ) by {
            if properties@.dom().contains(k) {
                let j = choose|j: int| 0 <= j < i && (#[trigger] entries@[j]).0@ == k;
                assert(members.dom().contains(entries@[j].0@));
            }
            if target.dom().contains(k) {
                assert(members.dom().contains(k));
            }
        }
        assert(properties@ =~= target);
    }
    Ok(properties)
}

fn text_member(value: &serde_json::Value, key: &str) -> (text: Option<String>)
    ensures
        match member_of(json_tree(*value), key@) {
            JsonTree::String(chars) => text matches Some(t) && t@ == chars,
            _ => text is None,
        },
{
    match json_member(value, key).as_str() {
        Some(content) => Some(content.to_owned()),
        None => None,
    }
}

fn mount_from_json(value: &serde_json::Value) -> (mount: Result<Mount, MarshalError>)
    ensures
        match mount {
            Ok(m) => mount_of(json_tree(*value)) == Ok::<MountView, MarshalError>(m@),
            Err(e) => mount_of(json_tree(*value)) == Err::<MountView, MarshalError>(e),
        },
{
    let container_path = text_member(value, "container_path");
    let host_path = text_member(value, "host_path");
    let read_only = json_member(value, "read_only").as_bool();
    match (container_path, host_path, read_only) {
        (Some(container_path), Some(host_path), Some(read_only)) => Ok(
            Mount { container_path, host_path, read_only },
        ),
        _ => Err(MarshalError::MalformedMount),
    }
}

fn device_spec_from_json(value: &serde_json::Value) -> (spec: Result<DeviceSpec, MarshalError>)
    ensures
        match spec {
            Ok(s) => device_spec_of(json_tree(*value)) == Ok::<DeviceSpecView, MarshalError>(s@),
            Err(e) => device_spec_of(json_tree(*value)) == Err::<DeviceSpecView, MarshalError>(e),
        },
{
    let container_path = text_member(value, "container_path");
    let host_path = text_member(value, "host_path");
    let permissions = text_member(value, "permissions");
    match (container_path, host_path, permissions) {
        (Some(container_path), Some(host_path), Some(permissions)) => Ok(
            DeviceSpec { container_path, host_path, permissions },
        ),
        _ => Err(MarshalError::MalformedDeviceSpec),
    }
}

fn mounts_from_json(value: &serde_json::Value) -> (mounts: Result<Vec<Mount>, MarshalError>)
    ensures
        match mounts {
            Ok(list) => mounts_of(json_tree(*value)) == Ok::<Seq<MountView>, MarshalError>(
                mount_views(list@),
            ),
            Err(e) => mounts_of(json_tree(*value)) == Err::<Seq<MountView>, MarshalError>(e),
        },
{
    let items = match value.as_array() {
        Some(items) => items,
        None => {
            if value.is_null() {
                let none: Vec<Mount> = Vec::new();
                assert(mount_views(none@) =~= Seq::empty());
                return Ok(none);
            }
            return Err(MarshalError::MalformedMount);
        },
    };
    let ghost trees = trees_of(items@);
    let mut mounts: Vec<Mount> = Vec::new();
    let mut i: usize = 0;
    assert(trees.take(0) =~= Seq::empty());
    assert(mount_views(mounts@) =~= Seq::empty());
    while i < items.len()
        invariant
            i <= items@.len(),
            trees == trees_of(items@),
            json_tree(*value) == JsonTree::Array(trees),
            try_map(trees.take(i as int), mount_decoder()) == Ok::<Seq<MountView>, MarshalError>(
                mount_views(mounts@),
            ),
        decreases items@.len() - i,
    {
        proof {
            lemma_try_map_step(trees, mount_decoder(), i as int);
        }
        let ghost before = mount_views(mounts@);
        match mount_from_json(&items[i]) {
            Ok(mount) => {
                mounts.push(mount);
                assert(mount_views(mounts@) =~= before.push(mount@));
            },
            Err(e) => {
                proof {
                    lemma_try_map_fails_on(trees, mount_decoder(), i + 1);
                }
                return Err(e);
            },
        }
        i = i + 1;
    }
    assert(trees.take(i as int) == trees);
    Ok(mounts)
}

fn device_specs_from_json(value: &serde_json::Value) -> (specs: Result<
    Vec<DeviceSpec>,
    MarshalError,
>)
    ensures
        match specs {
            Ok(list) => device_specs_of(json_tree(*value)) == Ok::<
                Seq<DeviceSpecView>,
                MarshalError,
            >(device_spec_views(list@)),
            Err(e) => device_specs_of(json_tree(*value)) == Err::<
                Seq<DeviceSpecView>,
                MarshalError,
            >(e),
        },
{
    let items = match value.as_array() {
        Some(items) => items,
        None => {
            if value.is_null() {
                let none: Vec<DeviceSpec> = Vec::new();
                assert(device_spec_views(none@) =~= Seq::empty());
                return Ok(none);
            }
            return Err(MarshalError::MalformedDeviceSpec);
        },
    };
    let ghost trees = trees_of(items@);
    let mut specs: Vec<DeviceSpec> = Vec::new();
    let mut i: usize = 0;
    assert(trees.take(0) =~= Seq::empty());
    assert(device_spec_views(specs@) =~= Seq::empty());
    while i < items.len()
        invariant
            i <= items@.len(),
            trees == trees_of(items@),
            json_tree(*value) == JsonTree::Array(trees),
            try_map(trees.take(i as int), device_spec_decoder()) == Ok::<
                Seq<DeviceSpecView>,
                MarshalError,
            >(device_spec_views(specs@)),
        decreases items@.len() - i,
    {
        proof {
            lemma_try_map_step(trees, device_spec_decoder(), i as int);
        }
        let ghost before = device_spec_views(specs@);
        match device_spec_from_json(&items[i]) {
            Ok(spec) => {
                specs.push(spec);
                assert(device_spec_views(specs@) =~= before.push(spec@));
            },
            Err(e) => {
                proof {
                    lemma_try_map_fails_on(trees, device_spec_decoder(), i + 1);
                }
                return Err(e);
            },
        }
        i = i + 1;
    }
    assert(trees.take(i as int) == trees);
    Ok(specs)
}

/// Decodes one device.
pub fn from_json_to_device(json_device: &serde_json::Value) -> (device: Result<
    Device,
    MarshalError,
>)
    ensures
        is_device(device, device_of(json_tree(*json_device))),
{
    let properties = match properties_from_json(json_member(json_device, "properties")) {
        Ok(properties) => properties,
        Err(e) => {
            return Err(e);
        },
    };
    let mounts = match mounts_from_json(json_member(json_device, "mounts")) {
        Ok(mounts) => mounts,
        Err(e) => {
            return Err(e);
        },
    };
    let device_specs = match device_specs_from_json(json_member(json_device, "device_specs")) {
        Ok(device_specs) => device_specs,
        Err(e) => {
            return Err(e);
        },
    };
    let id = value_to_string(json_member(json_device, "id"));
    Ok(Device { id, properties, mounts, device_specs })
}

/// Decodes the devices that a JSON value holds under `devices`.
pub fn discover_response_from_value(json: &serde_json::Value) -> (response: Result<
    DiscoverResponse,
    MarshalError,
>)
    ensures
        is_response(response, response_of(json_tree(*json))),
{
    let items = match json_member(json, "devices").as_array() {
        Some(items) => items,
        None => {
            return Err(MarshalError::DevicesNotArray);
        },
    };
    let ghost trees = trees_of(items@);
    let mut devices: Vec<Device> = Vec::new();
    let mut i: usize = 0;
    assert(trees.take(0) =~= Seq::empty());
    assert(device_views(devices@) =~= Seq::empty());
    while i < items.len()
        invariant
            i <= items@.len(),
            trees == trees_of(items@),
            member_of(json_tree(*json), "devices"@) == JsonTree::Array(trees),
            try_map(trees.take(i as int), device_decoder()) == Ok::<Seq<DeviceView>, MarshalError>(
                device_views(devices@),
            ),
        decreases items@.len() - i,
    {
        proof {
            lemma_try_map_step(trees, device_decoder(), i as int);
        }
        let ghost before = device_views(devices@);
        match from_json_to_device(&items[i]) {
            Ok(device) => {
                devices.push(device);
                assert(device_views(devices@) =~= before.push(device@));
            },
            Err(e) => {
                proof {
                    lemma_try_map_fails_on(trees, device_decoder(), i + 1);
                }
                return Err(e);
            },
        }
        i = i + 1;
    }
    assert(trees.take(i as int) == trees);
    Ok(DiscoverResponse { devices })
}

/// Decodes the JSON text that a worker wrote into the devices it reports.
pub fn from_json_to_discover_response(json_str: &str) -> (response: Result<
    DiscoverResponse,
    MarshalError,
>)
    ensures
        is_response(response, response_of_parsed(json_parse(json_str@))),
{
    match parse_json(json_str) {
        Ok(json) => discover_response_from_value(&json),
        Err(_) => Err(MarshalError::NotJson),
    }
}

/// The wire form of a mount.
pub open spec fn mount_tree(mount: MountView) -> JsonTree {
    JsonTree::Object(
        Map::<Seq<char>, JsonTree>::empty().insert(
            "container_path"@,
            JsonTree::String(mount.container_path),
        ).insert("host_path"@, JsonTree::String(mount.host_path)).insert(
            "read_only"@,
            JsonTree::Bool(mount.read_only),
        ),
    )
}

/// The wire form of a device specification.
pub open spec fn device_spec_tree(spec: DeviceSpecView) -> JsonTree {
    JsonTree::Object(
        Map::<Seq<char>, JsonTree>::empty().insert(
            "container_path"@,
            JsonTree::String(spec.container_path),
        ).insert("host_path"@, JsonTree::String(spec.host_path)).insert(
            "permissions"@,
            JsonTree::String(spec.permissions),
        ),
    )
}

/// The wire form of a device: an object with its identifier, its properties
/// as strings, its mounts and its device specifications.
pub open spec fn device_tree(device: DeviceView) -> JsonTree {
    JsonTree::Object(
        Map::<Seq<char>, JsonTree>::empty().insert("id"@, JsonTree::String(device.id)).insert(
            "properties"@,
            JsonTree::Object(device.properties.map_values(|v: Seq<char>| JsonTree::String(v))),
        ).insert(
            "mounts"@,
            JsonTree::Array(device.mounts.map_values(|m: MountView| mount_tree(m))),
        ).insert(
            "device_specs"@,
            JsonTree::Array(device.device_specs.map_values(|d: DeviceSpecView| device_spec_tree(d))),
        ),
    )
}

/// The wire form of a response: its devices, in order, under `devices`.
pub open spec fn response_tree(devices: Seq<DeviceView>) -> JsonTree {
    JsonTree::Object(
        Map::<Seq<char>, JsonTree>::empty().insert(
            "devices"@,
            JsonTree::Array(devices.map_values(|d: DeviceView| device_tree(d))),
        ),
    )
}

proof fn lemma_member_names_differ()
    ensures
        "id"@ != "properties"@,
        "id"@ != "mounts"@,
        "id"@ != "device_specs"@,
        "properties"@ != "mounts"@,
        "properties"@ != "device_specs"@,
        "mounts"@ != "device_specs"@,
        "container_path"@ != "host_path"@,
        "container_path"@ != "read_only"@,
        "container_path"@ != "permissions"@,
        "host_path"@ != "read_only"@,
        "host_path"@ != "permissions"@,
{
    reveal_strlit("id");
    reveal_strlit("properties");
    reveal_strlit("mounts");
    reveal_strlit("device_specs");
    reveal_strlit("container_path");
    reveal_strlit("host_path");
    reveal_strlit("read_only");
    reveal_strlit("permissions");
    assert("id"@.len() == 2);
    assert("properties"@.len() == 10);
    assert("mounts"@.len() == 6);
    assert("device_specs"@.len() == 12);
    assert("container_path"@.len() == 14);
    assert("host_path"@.len() == 9);
    assert("read_only"@.len() == 9);
    assert("permissions"@.len() == 11);
    assert("host_path"@[0] != "read_only"@[0]);
}

/// A mount decodes from its wire form.
pub proof fn lemma_mount_round_trip(mount: MountView)
    ensures
        mount_of(mount_tree(mount)) == Ok::<MountView, MarshalError>(mount),
{
    lemma_member_names_differ();
}

/// A device specification decodes from its wire form.
pub proof fn lemma_device_spec_round_trip(spec: DeviceSpecView)
    ensures
        device_spec_of(device_spec_tree(spec)) == Ok::<DeviceSpecView, MarshalError>(spec),
{
    lemma_member_names_differ();
}

/// A device decodes from its wire form.
pub proof fn lemma_device_round_trip(device: DeviceView)
    ensures
        device_of(device_tree(device)) == Ok::<DeviceView, MarshalError>(device),
{
    lemma_member_names_differ();
    let tree = device_tree(device);
    let coded = device.properties.map_values(|v: Seq<char>| JsonTree::String(v));
    assert(member_of(tree, "properties"@) == JsonTree::Object(coded));
    assert(coded.map_values(|t: JsonTree| string_form(t)) =~= device.properties);
    assert(member_of(tree, "mounts"@) == JsonTree::Array(
        device.mounts.map_values(|m: MountView| mount_tree(m)),
    ));
    assert forall|i: int| 0 <= i < device.mounts.len() implies mount_decoder()(
        (|m: MountView| mount_tree(m))(#[trigger] device.mounts[i]),
    ) == Ok::<MountView, MarshalError>(device.mounts[i]) by {
        lemma_mount_round_trip(device.mounts[i]);
    }
    lemma_try_map_inverts(device.mounts, |m: MountView| mount_tree(m), mount_decoder());
    assert(member_of(tree, "device_specs"@) == JsonTree::Array(
        device.device_specs.map_values(|d: DeviceSpecView| device_spec_tree(d)),
    ));
    assert forall|i: int| 0 <= i < device.device_specs.len() implies device_spec_decoder()(
        (|d: DeviceSpecView| device_spec_tree(d))(#[trigger] device.device_specs[i]),
    ) == Ok::<DeviceSpecView, MarshalError>(device.device_specs[i]) by {
        lemma_device_spec_round_trip(device.device_specs[i]);
    }
    lemma_try_map_inverts(
        device.device_specs,
        |d: DeviceSpecView| device_spec_tree(d),
        device_spec_decoder(),
    );
    assert(member_of(tree, "id"@) == JsonTree::String(device.id));
}

/// Decoding undoes the wire form: whatever devices a worker reports, in
/// this form, the service reads exactly those devices, in their order.
pub proof fn lemma_response_round_trip(devices: Seq<DeviceView>)
    ensures
        response_of(response_tree(devices)) == Ok::<Seq<DeviceView>, MarshalError>(devices),
{
    assert forall|i: int| 0 <= i < devices.len() implies device_decoder()(
        (|d: DeviceView| device_tree(d))(#[trigger] devices[i]),
    ) == Ok::<DeviceView, MarshalError>(devices[i]) by {
        lemma_device_round_trip(devices[i]);
    }
    lemma_try_map_inverts(devices, |d: DeviceView| device_tree(d), device_decoder());
}

} // verus!
