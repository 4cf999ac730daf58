//! Discovery details and results.

use vstd::prelude::*;
use vstd::string::*;
use crate::json::JsonTree;
use crate::json::json_get;
use crate::json::json_member;
use crate::json::member_if_present;
use crate::json::json_parse;
use crate::json::json_tree;
use crate::json::member_of;
use crate::json::parse_json;
use crate::json::trees_of;
use crate::models::device::Device;
use crate::models::device::same_text;
use crate::sequence::lemma_try_map_fails_on;
use crate::sequence::lemma_try_map_step;
use crate::sequence::try_map;

verus! {

/// What a filter list does with the candidates that match it.
#[derive(Clone, Copy, Debug, PartialEq, Eq, Structural)]
pub enum FilterType {
    /// Candidates that match an item are turned away.
    Exclude,
    /// Only candidates that match an item are let through.
    Include,
}

/// The action of a filter list that names none.
pub fn default_action() -> (action: FilterType)
    ensures
        action == FilterType::Include,
{
    FilterType::Include
}

/// The discovery timeout, in seconds, of details that name none.
pub fn default_discovery_timeout_seconds() -> (seconds: i32)
    ensures
        seconds == 1,
{
    1
}

/// Items to look for in an attribute of a candidate, and what a match means.
#[derive(Debug)]
pub struct FilterList {
    pub items: Vec<String>,
    pub action: FilterType,
}

/// What a filter list holds.
pub struct FilterListView {
    pub items: Seq<Seq<char>>,
    pub action: FilterType,
}

impl View for FilterList {
    type V = FilterListView;

    open spec fn view(&self) -> FilterListView {
        FilterListView { items: self.items.deep_view(), action: self.action }
    }
}

/// The view of a filter list that may be absent.
pub open spec fn filter_view(list: Option<FilterList>) -> Option<FilterListView> {
    match list {
        Some(l) => Some(l@),
        None => None,
    }
}

/// What to look for on the network: one optional filter per attribute, and how
/// long a probe may wait for answers.
#[derive(Debug)]
pub struct OnvifDiscoveryDetails {
    pub ip_addresses: Option<FilterList>,
    pub mac_addresses: Option<FilterList>,
    pub scopes: Option<FilterList>,
    pub discovery_timeout_seconds: i32,
}

/// What the details for the network worker hold.
pub struct OnvifDiscoveryDetailsView {
    pub ip_addresses: Option<FilterListView>,
    pub mac_addresses: Option<FilterListView>,
    pub scopes: Option<FilterListView>,
    pub discovery_timeout_seconds: i32,
}

impl View for OnvifDiscoveryDetails {
    type V = OnvifDiscoveryDetailsView;

    open spec fn view(&self) -> OnvifDiscoveryDetailsView {
        OnvifDiscoveryDetailsView {
            ip_addresses: filter_view(self.ip_addresses),
            mac_addresses: filter_view(self.mac_addresses),
            scopes: filter_view(self.scopes),
            discovery_timeout_seconds: self.discovery_timeout_seconds,
        }
    }
}

/// The devices that one cycle of the network worker found.
#[derive(Debug)]
pub struct OnvifResult {
    pub devices: Vec<Device>,
}

/// The descriptions of the devices that the echo worker is to report.
#[derive(Debug)]
pub struct DebugEchoDiscoveryDetails {
    pub descriptions: Vec<String>,
}

/// The devices that one cycle of the echo worker reported.
#[derive(Debug)]
pub struct DebugEchoResult {
    pub devices: Vec<Device>,
}

/// Why a text does not hold discovery details.
#[derive(Clone, Copy, Debug, PartialEq, Eq, Structural)]
pub enum ConfigError {
    /// The text is not JSON.
    NotJson,
    /// The JSON value does not have the shape of the details.
    WrongShape,
}

/// The text that a JSON value holds, where it is a string.
pub open spec fn text_of(tree: JsonTree) -> Result<Seq<char>, ConfigError> {
    match tree {
        JsonTree::String(text) => Ok(text),
        _ => Err(ConfigError::WrongShape),
    }
}

/// `text_of`, as a function value.
pub open spec fn text_decoder() -> spec_fn(JsonTree) -> Result<Seq<char>, ConfigError> {
    |t: JsonTree| text_of(t)
}

/// The texts that a JSON value holds, where it is an array of strings.
pub open spec fn texts_of(tree: JsonTree) -> Result<Seq<Seq<char>>, ConfigError> {
    match tree {
        JsonTree::Array(items) => try_map(items, text_decoder()),
        _ => Err(ConfigError::WrongShape),
    }
}

/// The action that the member `action` of a filter list names: Include
/// where the member is missing; a member that is there names its action.
pub open spec fn action_of(member: Option<JsonTree>) -> Result<FilterType, ConfigError> {
    match member {
        None => Ok(FilterType::Include),
        Some(JsonTree::String(name)) => if name == "Include"@ {
            Ok(FilterType::Include)
        } else if name == "Exclude"@ {
            Ok(FilterType::Exclude)
        } else {
            Err(ConfigError::WrongShape)
        },
        Some(_) => Err(ConfigError::WrongShape),
    }
}

/// The filter list that a member of the details holds: none where the
/// member is missing or null; otherwise an object with the array `items`
/// and, if it names one, the `action`.
pub open spec fn filter_of(tree: JsonTree) -> Result<Option<FilterListView>, ConfigError> {
    match tree {
        JsonTree::Null => Ok(None),
        JsonTree::Object(_) => match texts_of(member_of(tree, "items"@)) {
            Err(e) => Err(e),
            Ok(items) => match action_of(member_if_present(tree, "action"@)) {
                Err(e) => Err(e),
                Ok(action) => Ok(Some(FilterListView { items, action })),
            },
        },
        _ => Err(ConfigError::WrongShape),
    }
}

/// The timeout that the member `discoveryTimeoutSeconds` names: one second
/// where the member is missing; a member that is there is an integer of 32
/// signed bits.
pub open spec fn timeout_of(member: Option<JsonTree>) -> Result<i32, ConfigError> {
    match member {
        None => Ok(1i32),
        Some(JsonTree::Number { integer: Some(seconds), .. }) => if i32::MIN <= seconds
            <= i32::MAX {
            Ok(seconds as i32)
        } else {
            Err(ConfigError::WrongShape)
        },
        Some(_) => Err(ConfigError::WrongShape),
    }
}

/// The details for the network worker that a JSON value holds.
pub open spec fn onvif_details_of(tree: JsonTree) -> Result<
    OnvifDiscoveryDetailsView,
    ConfigError,
> {
    match tree {
        JsonTree::Object(_) => match filter_of(member_of(tree, "ipAddresses"@)) {
            Err(e) => Err(e),
            Ok(ip_addresses) => match filter_of(member_of(tree, "macAddresses"@)) {
                Err(e) => Err(e),
                Ok(mac_addresses) => match filter_of(member_of(tree, "scopes"@)) {
                    Err(e) => Err(e),
                    Ok(scopes) => match timeout_of(
                        member_if_present(tree, "discoveryTimeoutSeconds"@),
                    ) {
                        Err(e) => Err(e),
                        Ok(discovery_timeout_seconds) => Ok(
                            OnvifDiscoveryDetailsView {
                                ip_addresses,
                                mac_addresses,
                                scopes,
                                discovery_timeout_seconds,
                            },
                        ),
                    },
                },
            },
        },
        _ => Err(ConfigError::WrongShape),
    }
}

/// The descriptions for the echo worker that a JSON value holds.
pub open spec fn echo_details_of(tree: JsonTree) -> Result<Seq<Seq<char>>, ConfigError> {
    texts_of(member_of(tree, "descriptions"@))
}

/// What a text holds, given what it parses to and what its value is to hold.
pub open spec fn of_parsed<T>(
    parsed: Option<JsonTree>,
    decode: spec_fn(JsonTree) -> Result<T, ConfigError>,
) -> Result<T, ConfigError> {
    match parsed {
        None => Err(ConfigError::NotJson),
        Some(tree) => decode(tree),
    }
}

/// `onvif_details_of`, as a function value.
pub open spec fn onvif_details_decoder() -> spec_fn(JsonTree) -> Result<
    OnvifDiscoveryDetailsView,
    ConfigError,
> {
    |t: JsonTree| onvif_details_of(t)
}

/// `echo_details_of`, as a function value.
pub open spec fn echo_details_decoder() -> spec_fn(JsonTree) -> Result<
    Seq<Seq<char>>,
    ConfigError,
> {
    |t: JsonTree| echo_details_of(t)
}

/// `got` is the list of texts, or the error, that `expected` names.
pub open spec fn is_texts(
    got: Result<Vec<String>, ConfigError>,
    expected: Result<Seq<Seq<char>>, ConfigError>,
) -> bool {
    match got {
        Ok(texts) => expected == Ok::<Seq<Seq<char>>, ConfigError>(texts.deep_view()),
        Err(e) => expected == Err::<Seq<Seq<char>>, ConfigError>(e),
    }
}

/// `got` is the filter list, or the error, that `expected` names.
pub open spec fn is_filter(
    got: Result<Option<FilterList>, ConfigError>,
    expected: Result<Option<FilterListView>, ConfigError>,
) -> bool {
    match got {
        Ok(list) => expected == Ok::<Option<FilterListView>, ConfigError>(filter_view(list)),
        Err(e) => expected == Err::<Option<FilterListView>, ConfigError>(e),
    }
}

/// `got` is the details, or the error, that `expected` names.
pub open spec fn is_onvif_details(
    got: Result<OnvifDiscoveryDetails, ConfigError>,
    expected: Result<OnvifDiscoveryDetailsView, ConfigError>,
) -> bool {
    match got {
        Ok(details) => expected == Ok::<OnvifDiscoveryDetailsView, ConfigError>(details@),
        Err(e) => expected == Err::<OnvifDiscoveryDetailsView, ConfigError>(e),
    }
}

/// `got` is the details, or the error, that `expected` names.
pub open spec fn is_echo_details(
    got: Result<DebugEchoDiscoveryDetails, ConfigError>,
    expected: Result<Seq<Seq<char>>, ConfigError>,
) -> bool {
    match got {
        Ok(details) => expected == Ok::<Seq<Seq<char>>, ConfigError>(
            details.descriptions.deep_view(),
        ),
        Err(e) => expected == Err::<Seq<Seq<char>>, ConfigError>(e),
    }
}

/// Reads an array of strings.
pub fn texts_from_json(value: &serde_json::Value) -> (texts: Result<Vec<String>, ConfigError>)
    ensures
        is_texts(texts, texts_of(json_tree(*value))),
{
    let items = match value.as_array() {
        Some(items) => items,
        None => {
            return Err(ConfigError::WrongShape);
        },
    };
    let ghost trees = trees_of(items@);
    let mut texts: Vec<String> = Vec::new();
    let mut i: usize = 0;
    assert(trees.take(0) =~= Seq::empty());
    assert(texts.deep_view() =~= Seq::empty());
    while i < items.len()
        invariant
            i <= items@.len(),
            trees == trees_of(items@),
            json_tree(*value) == JsonTree::Array(trees),
            try_map(trees.take(i as int), text_decoder()) == Ok::<Seq<Seq<char>>, ConfigError>(
                texts.deep_view(),
            ),
        decreases items@.len() - i,
    {
        proof {
            lemma_try_map_step(trees, text_decoder(), i as int);
        }
        let ghost before = texts.deep_view();
        match items[i].as_str() {
            Some(text) => {
                texts.push(text.to_owned());
                assert(texts.deep_view() =~= before.push(text@));
            },
            None => {
                proof {
                    lemma_try_map_fails_on(trees, text_decoder(), i + 1);
                }
                return Err(ConfigError::WrongShape);
            },
        }
        i = i + 1;
    }
    assert(trees.take(i as int) == trees);
    Ok(texts)
}

fn action_from_json(member: Option<&serde_json::Value>) -> (action: Result<
    FilterType,
    ConfigError,
>)
    ensures
        action == action_of(
            match member {
                Some(value) => Some(json_tree(*value)),
                None => None,
            },
        ),
{
    let value = match member {
        Some(value) => value,
        None => {
            return Ok(default_action());
        },
    };
    match value.as_str() {
        Some(name) => {
            if same_text(name, "Include") {
                Ok(FilterType::Include)
            } else if same_text(name, "Exclude") {
                Ok(FilterType::Exclude)
            } else {
                Err(ConfigError::WrongShape)
            }
        },
        None => Err(ConfigError::WrongShape),
    }
}

/// Reads a filter list that may be missing.
pub fn filter_from_json(value: &serde_json::Value) -> (list: Result<
    Option<FilterList>,
    ConfigError,
>)
    ensures
        is_filter(list, filter_of(json_tree(*value))),
{
    if value.is_null() {
        return Ok(None);
    }
    if !value.is_object() {
        return Err(ConfigError::WrongShape);
    }
    let items = match texts_from_json(json_member(value, "items")) {
        Ok(items) => items,
        Err(e) => {
            return Err(e);
        },
    };
    let action = match action_from_json(json_get(value, "action")) {
        Ok(action) => action,
        Err(e) => {
            return Err(e);
        },
    };
    Ok(Some(FilterList { items, action }))
}

fn timeout_from_json(member: Option<&serde_json::Value>) -> (seconds: Result<i32, ConfigError>)
    ensures
        seconds == timeout_of(
            match member {
                Some(value) => Some(json_tree(*value)),
                None => None,
            },
        ),
{
    let value = match member {
        Some(value) => value,
        None => {
            return Ok(default_discovery_timeout_seconds());
        },
    };
    match value.as_i64() {
        Some(seconds) => {
            if -2147483648 <= seconds && seconds <= 2147483647 {
                Ok(seconds as i32)
            } else {
                Err(ConfigError::WrongShape)
            }
        },
        None => Err(ConfigError::WrongShape),
    }
}

/// Reads the details for the network worker out of a JSON value.
pub fn onvif_details_from_json(value: &serde_json::Value) -> (details: Result<
    OnvifDiscoveryDetails,
    ConfigError,
>)
    ensures
        is_onvif_details(details, onvif_details_of(json_tree(*value))),
{
    if !value.is_object() {
        return Err(ConfigError::WrongShape);
    }
    let ip_addresses = match filter_from_json(json_member(value, "ipAddresses")) {
        Ok(list) => list,
        Err(e) => {
            return Err(e);
        },
    };
    let mac_addresses = match filter_from_json(json_member(value, "macAddresses")) {
        Ok(list) => list,
        Err(e) => {
            return Err(e);
        },
    };
    let scopes = match filter_from_json(json_member(value, "scopes")) {
        Ok(list) => list,
        Err(e) => {
            return Err(e);
        },
    };
    let discovery_timeout_seconds = match timeout_from_json(
        json_get(value, "discoveryTimeoutSeconds"),
    ) {
        Ok(seconds) => seconds,
        Err(e) => {
            return Err(e);
        },
    };
    Ok(OnvifDiscoveryDetails { ip_addresses, mac_addresses, scopes, discovery_timeout_seconds })
}

/// Reads the details for the echo worker out of a JSON value.
pub fn echo_details_from_json(value: &serde_json::Value) -> (details: Result<
    DebugEchoDiscoveryDetails,
    ConfigError,
>)
    ensures
        is_echo_details(details, echo_details_of(json_tree(*value))),
{
    match texts_from_json(json_member(value, "descriptions")) {
        Ok(descriptions) => Ok(DebugEchoDiscoveryDetails { descriptions }),
        Err(e) => Err(e),
    }
}

/// Reads the details for the network worker out of a JSON text.
pub fn parse_onvif_details(discovery_details: &str) -> (details: Result<
    OnvifDiscoveryDetails,
    ConfigError,
>)
    ensures
        is_onvif_details(
            details,
            of_parsed(json_parse(discovery_details@), onvif_details_decoder()),
        ),
{
    match parse_json(discovery_details) {
        Ok(value) => onvif_details_from_json(&value),
        Err(_) => Err(ConfigError::NotJson),
    }
}

/// Reads the details for the echo worker out of a JSON text.
pub fn parse_echo_details(discovery_details: &str) -> (details: Result<
    DebugEchoDiscoveryDetails,
    ConfigError,
>)
    ensures
        is_echo_details(details, of_parsed(json_parse(discovery_details@), echo_details_decoder())),
{
    match parse_json(discovery_details) {
        Ok(value) => echo_details_from_json(&value),
        Err(_) => Err(ConfigError::NotJson),
    }
}

} // verus!
