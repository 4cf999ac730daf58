//! Decoding of the list of device service addresses.

use vstd::prelude::*;
use crate::json::json_tree;
use crate::models::request::ConfigError;
use crate::models::request::is_texts;
use crate::models::request::texts_from_json;
use crate::models::request::texts_of;

verus! {

/// Reads the addresses out of a JSON array of strings, in order. Any
/// other value holds no list of addresses.
pub fn from_json_to_url_list(json_array: &serde_json::Value) -> (urls: Result<
    Vec<String>,
    ConfigError,
>)
    ensures
        is_texts(urls, texts_of(json_tree(*json_array))),
{
    texts_from_json(json_array)
}

} // verus!
