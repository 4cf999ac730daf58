use device_discovery::discovery::marshaller::from_json_to_url_list;
use device_discovery::marshallers::discover_response_marshaller::discover_response_from_value;
use device_discovery::marshallers::discover_response_marshaller::from_json_to_device;
use device_discovery::marshallers::discover_response_marshaller::from_json_to_discover_response;
use device_discovery::marshallers::discover_response_marshaller::value_to_string;
use device_discovery::marshallers::discover_response_marshaller::MarshalError;
use device_discovery::models::request::ConfigError;

fn json(text: &str) -> serde_json::Value {
    serde_json::from_str(text).unwrap()
}

#[test]
fn test_marshall_discover_request() {
    let discover_response_json = r#"
        {
            "devices": [
                {
                    "id":"foo0",
                    "properties":{"DEBUG_ECHO_DESCRIPTION":"foo0"},
                    "mounts":[]
                    ,"device_specs":[]
                },
                {
                    "id":"foo1",
                    "properties":{"DEBUG_ECHO_DESCRIPTION":"foo1"},
                    "mounts":[],
                    "device_specs":[]
                },
                {
                    "id":"foo2",
                    "properties":{"DEBUG_ECHO_DESCRIPTION":"foo2"},
                    "mounts":[],
                    "device_specs":[]
                }
            ]
        }"#;

    let discover_response_obj = from_json_to_discover_response(&discover_response_json).unwrap();
    println!("{:?}", discover_response_obj);
    assert_eq!(discover_response_obj.devices.len(), 3);
}

#[test]
fn echo_output_yields_three_devices_with_matching_descriptions() {
    let text = r#"{"devices":[{"id":"foo0","properties":{"DEBUG_ECHO_DESCRIPTION":"foo0"},"mounts":[],"device_specs":[]},{"id":"foo1","properties":{"DEBUG_ECHO_DESCRIPTION":"foo1"},"mounts":[],"device_specs":[]},{"id":"foo2","properties":{"DEBUG_ECHO_DESCRIPTION":"foo2"},"mounts":[],"device_specs":[]}]}"#;
    let response = from_json_to_discover_response(text).unwrap();
    let ids: Vec<&str> = response.devices.iter().map(|d| d.id.as_str()).collect();
    assert_eq!(ids, vec!["foo0", "foo1", "foo2"]);
    for device in response.devices.iter() {
        assert_eq!(device.properties.len(), 1);
        assert_eq!(device.properties.get("DEBUG_ECHO_DESCRIPTION"), Some(&device.id));
        assert!(device.mounts.is_empty());
        assert!(device.device_specs.is_empty());
    }
}

#[test]
fn no_devices_is_an_empty_response() {
    let response = from_json_to_discover_response(r#"{"devices":[]}"#).unwrap();
    assert!(response.devices.is_empty());
}

#[test]
fn text_that_is_not_json_is_refused() {
    assert_eq!(from_json_to_discover_response("{devices").unwrap_err(), MarshalError::NotJson);
    assert_eq!(from_json_to_discover_response("").unwrap_err(), MarshalError::NotJson);
}

#[test]
fn devices_must_be_an_array() {
    for text in ["{}", r#"{"devices":{}}"#, r#"{"devices":"x"}"#, "[]", "null", "3"] {
        assert_eq!(
            from_json_to_discover_response(text).unwrap_err(),
            MarshalError::DevicesNotArray,
            "{}",
            text
        );
    }
}

#[test]
fn properties_must_be_an_object() {
    for text in [
        r#"{"devices":[{"id":"a"}]}"#,
        r#"{"devices":[{"id":"a","properties":[]}]}"#,
        r#"{"devices":[{"id":"a","properties":null}]}"#,
        r#"{"devices":["a"]}"#,
    ] {
        assert_eq!(
            from_json_to_discover_response(text).unwrap_err(),
            MarshalError::PropertiesNotObject,
            "{}",
            text
        );
    }
}

#[test]
fn the_first_device_that_does_not_decode_names_the_error() {
    let text = r#"{"devices":[
        {"id":"a","properties":{}},
        {"id":"b","properties":{},"mounts":7},
        {"id":"c"}
    ]}"#;
    assert_eq!(from_json_to_discover_response(text).unwrap_err(), MarshalError::MalformedMount);
}

#[test]
fn property_values_take_their_string_form() {
    let device = from_json_to_device(&json(
        r#"{"id":"cam","properties":{"name":"front door","port":8080,"on":true,"none":null,"tags":["a","b"],"nested":{"k":"v"},"ratio":1.5}}"#,
    ))
    .unwrap();
    assert_eq!(device.id, "cam");
    assert_eq!(device.properties.len(), 7);
    assert_eq!(device.properties.get("name"), Some(&"front door".to_string()));
    assert_eq!(device.properties.get("port"), Some(&"8080".to_string()));
    assert_eq!(device.properties.get("on"), Some(&"true".to_string()));
    assert_eq!(device.properties.get("none"), Some(&"null".to_string()));
    assert_eq!(device.properties.get("tags"), Some(&r#"["a","b"]"#.to_string()));
    assert_eq!(device.properties.get("nested"), Some(&r#"{"k":"v"}"#.to_string()));
    assert_eq!(device.properties.get("ratio"), Some(&"1.5".to_string()));
    assert_eq!(device.properties.get("absent"), None);
}

#[test]
fn string_form_of_values() {
    assert_eq!(value_to_string(&json(r#""plain""#)), "plain");
    assert_eq!(value_to_string(&json(r#""with \"quotes\"""#)), "with \"quotes\"");
    assert_eq!(value_to_string(&json("12")), "12");
    assert_eq!(value_to_string(&json("-3")), "-3");
    assert_eq!(value_to_string(&json("false")), "false");
    assert_eq!(value_to_string(&json("null")), "null");
    assert_eq!(value_to_string(&json(r#"{"b":1,"a":[2]}"#)), r#"{"a":[2],"b":1}"#);
}

#[test]
fn an_id_that_is_missing_or_no_string_takes_its_json_text() {
    let device = from_json_to_device(&json(r#"{"properties":{}}"#)).unwrap();
    assert_eq!(device.id, "null");
    let device = from_json_to_device(&json(r#"{"id":17,"properties":{}}"#)).unwrap();
    assert_eq!(device.id, "17");
}

#[test]
fn mounts_and_device_specs_are_mapped() {
    let device = from_json_to_device(&json(
        r#"{"id":"cam","properties":{},
            "mounts":[{"container_path":"/c","host_path":"/h","read_only":true},
                      {"container_path":"/c2","host_path":"/h2","read_only":false}],
            "device_specs":[{"container_path":"/dev/a","host_path":"/dev/b","permissions":"rw"}]}"#,
    ))
    .unwrap();
    assert_eq!(device.mounts.len(), 2);
    assert_eq!(device.mounts[0].container_path, "/c");
    assert_eq!(device.mounts[0].host_path, "/h");
    assert!(device.mounts[0].read_only);
    assert_eq!(device.mounts[1].container_path, "/c2");
    assert!(!device.mounts[1].read_only);
    assert_eq!(device.device_specs.len(), 1);
    assert_eq!(device.device_specs[0].container_path, "/dev/a");
    assert_eq!(device.device_specs[0].host_path, "/dev/b");
    assert_eq!(device.device_specs[0].permissions, "rw");
}

#[test]
fn malformed_mounts_are_refused() {
    for text in [
        r#"{"properties":{},"mounts":{}}"#,
        r#"{"properties":{},"mounts":[{"container_path":"/c","host_path":"/h"}]}"#,
        r#"{"properties":{},"mounts":[{"container_path":"/c","host_path":"/h","read_only":"yes"}]}"#,
        r#"{"properties":{},"mounts":[{"container_path":1,"host_path":"/h","read_only":true}]}"#,
        r#"{"properties":{},"mounts":["m"]}"#,
    ] {
        assert_eq!(
            from_json_to_device(&json(text)).unwrap_err(),
            MarshalError::MalformedMount,
            "{}",
            text
        );
    }
}

#[test]
fn malformed_device_specs_are_refused() {
    for text in [
        r#"{"properties":{},"device_specs":"x"}"#,
        r#"{"properties":{},"device_specs":[{"container_path":"/c","host_path":"/h"}]}"#,
        r#"{"properties":{},"device_specs":[{"container_path":"/c","host_path":"/h","permissions":7}]}"#,
    ] {
        assert_eq!(
            from_json_to_device(&json(text)).unwrap_err(),
            MarshalError::MalformedDeviceSpec,
            "{}",
            text
        );
    }
}

#[test]
fn mounts_are_looked_at_before_device_specs() {
    let text = r#"{"properties":{},"mounts":3,"device_specs":3}"#;
    assert_eq!(from_json_to_device(&json(text)).unwrap_err(), MarshalError::MalformedMount);
}

#[test]
fn response_from_a_parsed_value() {
    let response =
        discover_response_from_value(&json(r#"{"devices":[{"id":"a","properties":{"k":"v"}}]}"#))
            .unwrap();
    assert_eq!(response.devices.len(), 1);
    assert_eq!(response.devices[0].properties.get("k"), Some(&"v".to_string()));
}

#[test]
fn url_list_is_read_in_order() {
    let urls = from_json_to_url_list(&json(r#"["http://a","http://b","http://a"]"#)).unwrap();
    assert_eq!(urls, vec!["http://a", "http://b", "http://a"]);
    assert_eq!(from_json_to_url_list(&json("[]")).unwrap(), Vec::<String>::new());
}

#[test]
fn url_list_must_be_an_array_of_strings() {
    for text in [r#"{"a":1}"#, r#""http://a""#, r#"["http://a", 3]"#, "null"] {
        assert_eq!(
            from_json_to_url_list(&json(text)).unwrap_err(),
            ConfigError::WrongShape,
            "{}",
            text
        );
    }
}
