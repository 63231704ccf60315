//! Websocket text messages as the exchange clients read them.

use vstd::prelude::*;
use crate::json::JsonValue;
use crate::str_map::StrMap;
use crate::text::{starts_with, str_eq};

verus! {

/// A text message received on a websocket: where it came from, its text, its JSON
/// document where the text is JSON, a summary of the members that classify it, and the
/// error message an exchange client found in it.
#[derive(Debug)]
pub struct WebSocketText {
    pub url: String,
    pub text: String,
    pub json_payload: Option<JsonValue>,
    pub payload_summary: StrMap,
    pub error_code: Option<String>,
    pub error_message: Option<String>,
}

impl WebSocketText {
    /// The summary value under a key.
    pub open spec fn summary(&self, key: Seq<char>) -> Option<Seq<char>> {
        self.payload_summary.spec_get(key)
    }

    /// A message with its JSON document and an empty summary.
    pub fn from_text(url: String, text: String, json_payload: Option<JsonValue>) -> (r: WebSocketText)
        ensures
            r.url == url,
            r.text == text,
            r.json_payload == json_payload,
            r.payload_summary.entries@.len() == 0,
            forall|k: Seq<char>| r.summary(k) is None,
            r.error_code is None,
            r.error_message is None,
    {
        WebSocketText {
            url,
            text,
            json_payload,
            payload_summary: StrMap::new(),
            error_code: None,
            error_message: None,
        }
    }

    /// `payload_summary.get(key).map(String::as_str) == Some(value)`.
    pub fn summary_is(&self, key: &str, value: &str) -> (r: bool)
        ensures
            r == (self.summary(key@) == Some(value@)),
    {
        match self.payload_summary.get(key) {
            Some(v) => str_eq(v, value),
            None => false,
        }
    }

    /// `payload_summary.get(key).is_some_and(|v| v.starts_with(prefix))`.
    pub fn summary_starts_with(&self, key: &str, prefix: &str) -> (r: bool)
        ensures
            r == (self.summary(key@) matches Some(v) && prefix@.is_prefix_of(v)),
    {
        match self.payload_summary.get(key) {
            Some(v) => starts_with(v, prefix),
            None => false,
        }
    }

    /// `payload_summary.get(key).map(String::as_str).unwrap_or("")`.
    pub fn summary_or_empty(&self, key: &str) -> (r: String)
        ensures
            r@ == match self.summary(key@) {
                Some(v) => v,
                None => Seq::empty(),
            },
    {
        match self.payload_summary.get(key) {
            Some(v) => crate::text::string_from(v),
            None => String::new(),
        }
    }
}

} // verus!
