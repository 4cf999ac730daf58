use device_discovery::discovery_support::onvif_discover::common::ProbeMatch;
use device_discovery::discovery_support::onvif_discover::common::ProbeMatches;
use device_discovery::discovery_support::onvif_discover::probe_types;
use device_discovery::discovery_support::onvif_discover::to_deserialize;
use device_discovery::discovery_support::onvif_discover::util::create_onvif_discovery_message;
use device_discovery::discovery_support::onvif_discover::util::get_device_uris_from_discovery_response;
use device_discovery::discovery_support::onvif_discover::util::message_id;
use device_discovery::discovery_support::onvif_discover::util::new_message_id;
use device_discovery::discovery_support::onvif_discover::util::CancelCheck;
use device_discovery::discovery_support::onvif_discover::util::IoFailure;
use device_discovery::discovery_support::onvif_discover::util::ProbeAction;
use device_discovery::discovery_support::onvif_discover::util::ProbeEvent;
use device_discovery::discovery_support::onvif_discover::util::ProbePhase;
use device_discovery::discovery_support::onvif_discover::util::ProbeState;
use device_discovery::discovery_support::onvif_discover::util::MULTICAST_IPV4_ADDRESS;
use device_discovery::discovery_support::onvif_discover::util::MULTICAST_PORT;
use device_discovery::discovery_support::onvif_discover::util::RECEIVE_BUFFER_SIZE;
use device_discovery::discovery_support::onvif_discover::util::SOCKET_TIMEOUT_MILLIS;
use device_discovery::text::char_is_whitespace;
use device_discovery::text::chars_of;
use device_discovery::text::split_whitespace;
use device_discovery::text::str_contains;

fn reply(xaddrs: &[&str]) -> to_deserialize::Envelope {
    to_deserialize::Envelope {
        header: to_deserialize::Header { relates_to: "uuid:probe".to_string() },
        body: to_deserialize::Body {
            probe_matches: ProbeMatches {
                probe_match: xaddrs
                    .iter()
                    .map(|x| ProbeMatch {
                        xaddrs: x.to_string(),
                        endpoint_reference: "urn:uuid:device".to_string(),
                        probe_types: vec!["netwsdl:NetworkVideoTransmitter".to_string()],
                        scopes: vec!["onvif://www.onvif.org/type/video_encoder".to_string()],
                        metadata_version: "1".to_string(),
                    })
                    .collect(),
            },
        },
    }
}

#[test]
fn two_probe_matches_give_three_addresses_in_order() {
    let envelope = reply(&[
        "https://10.0.0.1:5357/svc",
        "https://10.0.0.2:5357/svc https://10.0.0.3:5357/svc",
    ]);
    assert_eq!(
        get_device_uris_from_discovery_response(&envelope),
        vec!["https://10.0.0.1:5357/svc", "https://10.0.0.2:5357/svc", "https://10.0.0.3:5357/svc"]
    );
}

#[test]
fn addresses_are_split_at_any_run_of_whitespace() {
    let envelope = reply(&["\n   https://a/svc\t\thttps://b/svc \r\n https://c/svc\n", "", "   "]);
    assert_eq!(
        get_device_uris_from_discovery_response(&envelope),
        vec!["https://a/svc", "https://b/svc", "https://c/svc"]
    );
    assert!(get_device_uris_from_discovery_response(&reply(&[])).is_empty());
}

#[test]
fn splitting_agrees_with_the_standard_library() {
    let texts = [
        "",
        " ",
        "a",
        " a",
        "a ",
        "a b",
        "  a   b  ",
        "a\u{a0}b",
        "a\u{85}b\u{1680}c",
        "a\u{2000}b\u{200a}c\u{200b}d",
        "a\u{2028}b\u{2029}c\u{202f}d\u{205f}e\u{3000}f",
        "a\u{b}b\u{c}c\u{1c}d\u{1f}e",
        "äö ü\tß",
        "a\u{feff}b\u{180e}c",
    ];
    for text in texts {
        let expected: Vec<String> = text.split_whitespace().map(|w| w.to_string()).collect();
        assert_eq!(split_whitespace(text), expected, "{:?}", text);
    }
}

#[test]
fn exactly_the_white_space_characters_split() {
    for code in 0u32..=0x10FFFF {
        if let Some(c) = char::from_u32(code) {
            let listed = matches!(
                code,
                0x09..=0x0D
                    | 0x20
                    | 0x85
                    | 0xA0
                    | 0x1680
                    | 0x2000..=0x200A
                    | 0x2028
                    | 0x2029
                    | 0x202F
                    | 0x205F
                    | 0x3000
            );
            let text = format!("a{}b", c);
            assert_eq!(split_whitespace(&text).len() == 2, listed, "U+{:04X}", code);
        }
    }
}

#[test]
fn white_space_is_told_as_in_the_standard_library() {
    for code in 0u32..=0x10FFFF {
        if let Some(c) = char::from_u32(code) {
            assert_eq!(char_is_whitespace(c), c.is_whitespace(), "U+{:04X}", code);
        }
    }
}

#[test]
fn the_characters_of_a_text_come_in_order() {
    for text in ["", "a", "abc", "ünï©ødé", "a\u{10FFFF}b\u{0}c"] {
        assert_eq!(chars_of(text), text.chars().collect::<Vec<char>>());
    }
}

#[test]
fn searching_agrees_with_the_standard_library() {
    let texts = ["", "a", "b", "ab", "ba", "aa", "aab", "aba", "abab", "bab", "é", "aé", "éa", "€é"];
    for hay in texts {
        for needle in texts {
            assert_eq!(str_contains(hay, needle), hay.contains(needle), "{:?} in {:?}", needle, hay);
        }
    }
    let long = "http://www.onvif.org/ver10/device/wsdl".repeat(50);
    assert!(str_contains(&long, "wsdlhttp"));
    assert!(!str_contains(&long, "wsdl http"));
    assert!(str_contains(&long, &long));
    assert!(!str_contains(&long[1..], &long));
}

#[test]
fn a_substring_is_found_wherever_it_stands() {
    let item = |s: &str| device_discovery::models::request::FilterList {
        items: vec![s.to_string()],
        action: device_discovery::models::request::FilterType::Exclude,
    };
    let found = |needle: &str, hay: &str| {
        device_discovery::discovery::filter::execute_filter(Some(&item(needle)), &[hay.to_string()])
    };
    assert!(found("abc", "abc"));
    assert!(found("abc", "xabc"));
    assert!(found("abc", "abcx"));
    assert!(found("abc", "xxabcxx"));
    assert!(found("", ""));
    assert!(found("é", "café au lait"));
    assert!(!found("abc", "ab"));
    assert!(!found("abc", "acb"));
    assert!(!found("abc", "ab c"));
    assert!(!found("abc", "ABC"));
    assert!(!found("abc", ""));
    assert!(!found("e", "café"));
}

#[test]
fn probe_asks_for_network_video_transmitters() {
    let envelope = create_onvif_discovery_message("uuid:1234");
    assert_eq!(envelope.header.message_id, "uuid:1234");
    assert_eq!(envelope.header.action, "http://schemas.xmlsoap.org/ws/2005/04/discovery/Probe");
    assert_eq!(envelope.header.reply_to, "urn:schemas-xmlsoap-org:ws:2005:04:discovery");
    assert_eq!(envelope.body.probe.probe_types, vec!["netwsdl:NetworkVideoTransmitter"]);
    assert_eq!(probe_types::NETWORK_VIDEO_TRANSMITTER, "netwsdl:NetworkVideoTransmitter");
}

#[test]
fn message_id_is_a_prefixed_uuid() {
    assert_eq!(message_id("abc"), "uuid:abc");
    let id = new_message_id();
    assert_eq!(id.chars().count(), 41);
    assert!(id.starts_with("uuid:"));
    let uuid = &id[5..];
    for (i, c) in uuid.chars().enumerate() {
        if i == 8 || i == 13 || i == 18 || i == 23 {
            assert_eq!(c, '-');
        } else {
            assert!(c.is_ascii_hexdigit() && !c.is_ascii_uppercase());
        }
    }
}

#[test]
fn each_probe_has_a_fresh_message_id() {
    assert_ne!(new_message_id(), new_message_id());
}

#[test]
fn probe_goes_to_the_standard_multicast_group() {
    assert_eq!(MULTICAST_IPV4_ADDRESS, [239, 255, 255, 250]);
    assert_eq!(MULTICAST_PORT, 3702);
    assert_eq!(RECEIVE_BUFFER_SIZE, 16384);
    assert_eq!(SOCKET_TIMEOUT_MILLIS, 200);
}

#[test]
fn replies_are_collected_in_arrival_order_until_cancelled() {
    let mut probe = ProbeState::new();
    assert_eq!(probe.phase, ProbePhase::Sending);
    assert_eq!(probe.step(ProbeEvent::Sent), ProbeAction::Receive);
    assert_eq!(probe.step(ProbeEvent::Reply(reply(&["http://b http://a"]))), ProbeAction::Receive);
    assert_eq!(
        probe.step(ProbeEvent::ReceiveTimedOut(CancelCheck::Pending)),
        ProbeAction::Receive
    );
    assert_eq!(probe.step(ProbeEvent::Reply(reply(&["http://c", "http://a"]))), ProbeAction::Receive);
    assert_eq!(probe.snapshot().unwrap(), vec!["http://b", "http://a", "http://c", "http://a"]);
    assert_eq!(
        probe.step(ProbeEvent::ReceiveTimedOut(CancelCheck::Cancelled)),
        ProbeAction::Finish
    );
    assert_eq!(probe.phase, ProbePhase::Finished);
    assert_eq!(probe.snapshot().unwrap(), vec!["http://b", "http://a", "http://c", "http://a"]);
}

#[test]
fn a_disconnected_caller_ends_the_probe_too() {
    let mut probe = ProbeState::new();
    probe.step(ProbeEvent::Sent);
    assert_eq!(
        probe.step(ProbeEvent::ReceiveTimedOut(CancelCheck::Disconnected)),
        ProbeAction::Finish
    );
    assert_eq!(probe.snapshot().unwrap(), Vec::<String>::new());
}

#[test]
fn a_send_that_times_out_means_no_responders() {
    let mut probe = ProbeState::new();
    assert_eq!(probe.step(ProbeEvent::SendFailed(IoFailure::TimedOut)), ProbeAction::Finish);
    assert_eq!(probe.snapshot().unwrap(), Vec::<String>::new());
}

#[test]
fn other_socket_errors_are_fatal() {
    let mut probe = ProbeState::new();
    assert_eq!(probe.step(ProbeEvent::SetupFailed), ProbeAction::Fail);
    assert!(probe.snapshot().is_err());

    let mut probe = ProbeState::new();
    assert_eq!(probe.step(ProbeEvent::SendFailed(IoFailure::Other)), ProbeAction::Fail);
    assert!(probe.snapshot().is_err());

    let mut probe = ProbeState::new();
    probe.step(ProbeEvent::Sent);
    probe.step(ProbeEvent::Reply(reply(&["http://a"])));
    assert_eq!(probe.step(ProbeEvent::ReceiveFailed), ProbeAction::Fail);
    assert_eq!(probe.phase, ProbePhase::Failed);
    assert!(probe.snapshot().is_err());
}

#[test]
fn a_datagram_that_is_no_reply_ends_the_probe_with_what_was_collected() {
    let mut probe = ProbeState::new();
    probe.step(ProbeEvent::Sent);
    probe.step(ProbeEvent::Reply(reply(&["http://a http://b"])));
    assert_eq!(probe.step(ProbeEvent::UnreadableReply), ProbeAction::Finish);
    assert_eq!(probe.phase, ProbePhase::Finished);
    assert_eq!(probe.snapshot().unwrap(), vec!["http://a", "http://b"]);

    let mut probe = ProbeState::new();
    assert_eq!(probe.step(ProbeEvent::UnreadableReply), ProbeAction::Send);
    assert_eq!(probe.phase, ProbePhase::Sending);
}

#[test]
fn a_probe_that_has_ended_takes_no_more_replies() {
    let mut probe = ProbeState::new();
    probe.step(ProbeEvent::Sent);
    probe.step(ProbeEvent::Reply(reply(&["http://a"])));
    probe.step(ProbeEvent::ReceiveTimedOut(CancelCheck::Cancelled));
    assert_eq!(probe.step(ProbeEvent::Reply(reply(&["http://late"]))), ProbeAction::Finish);
    assert_eq!(probe.step(ProbeEvent::ReceiveFailed), ProbeAction::Finish);
    assert_eq!(probe.step(ProbeEvent::Sent), ProbeAction::Finish);
    assert_eq!(probe.snapshot().unwrap(), vec!["http://a"]);
}

#[test]
fn replies_before_the_probe_is_sent_are_ignored() {
    let mut probe = ProbeState::new();
    assert_eq!(probe.step(ProbeEvent::Reply(reply(&["http://early"]))), ProbeAction::Send);
    assert_eq!(probe.step(ProbeEvent::ReceiveFailed), ProbeAction::Send);
    assert_eq!(
        probe.step(ProbeEvent::ReceiveTimedOut(CancelCheck::Cancelled)),
        ProbeAction::Send
    );
    assert_eq!(probe.phase, ProbePhase::Sending);
    assert_eq!(probe.snapshot().unwrap(), Vec::<String>::new());
}

#[test]
fn events_of_the_sending_phase_change_nothing_while_receiving() {
    let mut probe = ProbeState::new();
    probe.step(ProbeEvent::Sent);
    assert_eq!(probe.step(ProbeEvent::Sent), ProbeAction::Receive);
    assert_eq!(probe.step(ProbeEvent::SetupFailed), ProbeAction::Receive);
    assert_eq!(probe.step(ProbeEvent::SendFailed(IoFailure::Other)), ProbeAction::Receive);
    assert_eq!(probe.phase, ProbePhase::Receiving);
}
