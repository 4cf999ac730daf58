use device_discovery::echo_worker;
use device_discovery::models::request::ConfigError;
use device_discovery::models::request::FilterType;
use device_discovery::onvif_worker;

#[test]
fn echo_details_hold_the_descriptions_in_order() {
    let details =
        echo_worker::deserialize_discovery_details(r#"{"descriptions":["foo0","foo1","foo2"]}"#)
            .unwrap();
    assert_eq!(details.descriptions, vec!["foo0", "foo1", "foo2"]);
}

#[test]
fn echo_details_may_hold_no_description_and_unknown_members() {
    let details =
        echo_worker::deserialize_discovery_details(r#"{"other":1,"descriptions":[]}"#).unwrap();
    assert!(details.descriptions.is_empty());
}

#[test]
fn echo_details_of_another_shape_are_refused() {
    for text in [
        "{}",
        r#"{"descriptions":"foo0"}"#,
        r#"{"descriptions":["foo0",1]}"#,
        r#"{"Descriptions":["foo0"]}"#,
        r#"["foo0"]"#,
        "null",
    ] {
        assert_eq!(
            echo_worker::deserialize_discovery_details(text).unwrap_err(),
            ConfigError::WrongShape,
            "{}",
            text
        );
    }
}

#[test]
fn details_that_are_not_json_are_refused() {
    assert_eq!(
        echo_worker::deserialize_discovery_details("descriptions: foo").unwrap_err(),
        ConfigError::NotJson
    );
    assert_eq!(
        onvif_worker::deserialize_discovery_details("{").unwrap_err(),
        ConfigError::NotJson
    );
}

#[test]
fn onvif_details_without_members_have_no_filters_and_one_second() {
    let details = onvif_worker::deserialize_discovery_details("{}").unwrap();
    assert!(details.ip_addresses.is_none());
    assert!(details.mac_addresses.is_none());
    assert!(details.scopes.is_none());
    assert_eq!(details.discovery_timeout_seconds, 1);
}

#[test]
fn onvif_details_hold_filters_and_timeout() {
    let details = onvif_worker::deserialize_discovery_details(
        r#"{
            "ipAddresses": {"action": "Exclude", "items": ["10.0.0.1", "10.0.0.2"]},
            "macAddresses": {"items": ["AA:BB"]},
            "scopes": null,
            "discoveryTimeoutSeconds": 7
        }"#,
    )
    .unwrap();
    let ip = details.ip_addresses.unwrap();
    assert_eq!(ip.action, FilterType::Exclude);
    assert_eq!(ip.items, vec!["10.0.0.1", "10.0.0.2"]);
    let mac = details.mac_addresses.unwrap();
    assert_eq!(mac.action, FilterType::Include);
    assert_eq!(mac.items, vec!["AA:BB"]);
    assert!(details.scopes.is_none());
    assert_eq!(details.discovery_timeout_seconds, 7);
}

#[test]
fn an_empty_include_list_is_not_an_absent_list() {
    let details =
        onvif_worker::deserialize_discovery_details(r#"{"scopes":{"items":[]}}"#).unwrap();
    let scopes = details.scopes.unwrap();
    assert_eq!(scopes.action, FilterType::Include);
    assert!(scopes.items.is_empty());
}

#[test]
fn timeout_is_an_integer_of_32_bits() {
    let parse = |text: &str| onvif_worker::deserialize_discovery_details(text);
    assert_eq!(parse(r#"{"discoveryTimeoutSeconds":0}"#).unwrap().discovery_timeout_seconds, 0);
    assert_eq!(parse(r#"{"discoveryTimeoutSeconds":-5}"#).unwrap().discovery_timeout_seconds, -5);
    assert_eq!(
        parse(r#"{"discoveryTimeoutSeconds":2147483647}"#).unwrap().discovery_timeout_seconds,
        2147483647
    );
    assert_eq!(
        parse(r#"{"discoveryTimeoutSeconds":-2147483648}"#).unwrap().discovery_timeout_seconds,
        -2147483648
    );
    for text in [
        r#"{"discoveryTimeoutSeconds":2147483648}"#,
        r#"{"discoveryTimeoutSeconds":-2147483649}"#,
        r#"{"discoveryTimeoutSeconds":18446744073709551615}"#,
        r#"{"discoveryTimeoutSeconds":1.5}"#,
        r#"{"discoveryTimeoutSeconds":"1"}"#,
        r#"{"discoveryTimeoutSeconds":true}"#,
        r#"{"discoveryTimeoutSeconds":null}"#,
    ] {
        assert_eq!(parse(text).unwrap_err(), ConfigError::WrongShape, "{}", text);
    }
}

#[test]
fn onvif_details_of_another_shape_are_refused() {
    for text in [
        "[]",
        "null",
        r#""details""#,
        r#"{"ipAddresses":"10.0.0.1"}"#,
        r#"{"ipAddresses":{}}"#,
        r#"{"ipAddresses":{"items":"10.0.0.1"}}"#,
        r#"{"ipAddresses":{"items":[1]}}"#,
        r#"{"macAddresses":{"items":[],"action":"Allow"}}"#,
        r#"{"macAddresses":{"items":[],"action":"include"}}"#,
        r#"{"scopes":{"items":[],"action":1}}"#,
        r#"{"scopes":{"items":[],"action":null}}"#,
        r#"{"scopes":{"items":null}}"#,
    ] {
        assert_eq!(
            onvif_worker::deserialize_discovery_details(text).unwrap_err(),
            ConfigError::WrongShape,
            "{}",
            text
        );
    }
}

#[test]
fn the_network_worker_runs_with_filters_that_exclude_nothing() {
    let details = onvif_worker::read_input_file();
    for list in [details.ip_addresses, details.mac_addresses, details.scopes] {
        let list = list.unwrap();
        assert_eq!(list.action, FilterType::Exclude);
        assert!(list.items.is_empty());
    }
    assert_eq!(details.discovery_timeout_seconds, 1);
}

#[test]
fn the_network_worker_interrogates_one_address() {
    assert_eq!(onvif_worker::read_url_file(), vec!["http://127.0.0.1:1000/onvif/device_service"]);
}
