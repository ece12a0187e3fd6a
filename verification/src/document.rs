//! JSON documents, as far as the price parser reads them.
//!
//! The text is decoded by `serde_json`. Nothing of that decoding is proved
//! here: the items below say what is taken on trust, over a model of the
//! decoded value. A string member comes decoded, with its escapes resolved,
//! and of a member that the text repeats the last one counts.

use vstd::prelude::*;
use vstd::string::{StrSliceExecFns, StringExecFns, StringSliceAdditionalSpecFns};
use vstd::utf8::{decode_utf8, encode_utf8, valid_utf8};

verus! {

/// A JSON value.
pub enum Json {
    Null,
    Bool(bool),
    /// A number; `unsigned` is the number where it is written with digits
    /// alone, without sign, fraction or exponent, and 64 bits hold it.
    Number { unsigned: Option<u64> },
    String(Seq<char>),
    Array(Seq<Json>),
    /// An object: its members by their keys.
    Object(Map<Seq<char>, Json>),
}

/// `serde_json::Value`, a decoded JSON value, taken as it is: nothing inside
/// it is seen from here.
#[verifier::external_type_specification]
#[verifier::external_body]
pub struct ExValue(serde_json::Value);

/// The JSON value that a decoded `serde_json::Value` holds.
pub uninterp spec fn json_value(value: serde_json::Value) -> Json;

/// The JSON value that a text is the one document of, if it is one.
pub uninterp spec fn json_document(text: Seq<char>) -> Option<Json>;

/// `serde_json::from_str` at the type `serde_json::Value`, without the reason
/// of a failure. The claim: whether a text decodes, and to which value,
/// depends on the text alone.
#[verifier::external_body]
fn decode_value(text: &str) -> (r: Option<serde_json::Value>)
    ensures
        match r {
            Some(value) => json_document(text@) == Some(json_value(value)),
            None => json_document(text@) is None,
        },
{
    serde_json::from_str::<serde_json::Value>(text).ok()
}

/// `serde_json::Value::get` with a string key. The claim: an object yields
/// its member of that key, if it has one; every other value yields nothing.
#[verifier::external_body]
fn member_of<'a>(value: &'a serde_json::Value, key: &str) -> (r: Option<&'a serde_json::Value>)
    ensures
        match json_value(*value) {
            Json::Object(members) => if members.contains_key(key@) {
                r is Some && json_value(*r->0) == members[key@]
            } else {
                r is None
            },
            _ => r is None,
        },
{
    value.get(key)
}

/// `serde_json::Value::as_str`. The claim: a string yields its text, every
/// other value nothing.
pub assume_specification<'a>[ serde_json::Value::as_str ](value: &'a serde_json::Value) -> (r:
    Option<&'a str>)
    ensures
        match json_value(*value) {
            Json::String(text) => r is Some && r->0@ == text,
            _ => r is None,
        },
;

/// `serde_json::Value::as_u64`. The claim: a number that the decoder holds as
/// an unsigned integer of 64 bits yields that integer, every other value
/// nothing.
pub assume_specification[ serde_json::Value::as_u64 ](value: &serde_json::Value) -> (r: Option<
    u64,
>)
    ensures
        match json_value(*value) {
            Json::Number { unsigned } => r == unsigned,
            _ => r is None,
        },
;

/// What the parser keeps of a response: the price as the bytes of its
/// string, and the time of the quote.
#[derive(Clone, Debug, PartialEq, Eq)]
pub struct PriceInfo {
    pub price_usd: Vec<u8>,
    pub timestamp: u64,
}

impl PriceInfo {
    /// The price for a log line, as `{ price: 7.123456 }`. There is none
    /// where the bytes of the price are no text.
    pub fn price_text(&self) -> (r: Option<String>)
        ensures
            valid_utf8(self.price_usd@) ==> r is Some && r->0@ == "{ price: "@ + decode_utf8(
                self.price_usd@,
            ) + " }"@,
            !valid_utf8(self.price_usd@) ==> r is None,
    {
        match core::str::from_utf8(self.price_usd.as_slice()) {
            Ok(price) => Some(String::from_str("{ price: ").concat(price).concat(" }")),
            Err(_) => None,
        }
    }
}

/// A decoded JSON document.
pub struct Document {
    root: serde_json::Value,
}

impl View for Document {
    type V = Json;

    closed spec fn view(&self) -> Json {
        json_value(self.root)
    }
}

/// What a document of the expected shape carries: the bytes of the string
/// `priceUsd` in the object `data`, and the unsigned integer `timestamp`.
/// Members beside these are passed over; a document of another shape
/// carries nothing.
pub open spec fn price_info_of(document: Json) -> Option<(Seq<u8>, u64)> {
    match document {
        Json::Object(top) => if top.contains_key("data"@) && top.contains_key("timestamp"@) {
            match (top["data"@], top["timestamp"@]) {
                (Json::Object(data), Json::Number { unsigned: Some(timestamp) }) => if data.contains_key(
                    "priceUsd"@,
                ) {
                    match data["priceUsd"@] {
                        Json::String(price) => Some((encode_utf8(price), timestamp)),
                        _ => None,
                    }
                } else {
                    None
                },
                _ => None,
            }
        } else {
            None
        },
        _ => None,
    }
}

impl Document {
    /// Decodes a text that is one JSON document.
    pub fn decode(text: &str) -> (r: Option<Document>)
        ensures
            match r {
                Some(document) => json_document(text@) == Some(document@),
                None => json_document(text@) is None,
            },
    {
        match decode_value(text) {
            Some(root) => Some(Document { root }),
            None => None,
        }
    }

    /// The price and the time that the document carries, where it has the
    /// expected shape.
    pub fn price_info(&self) -> (r: Option<PriceInfo>)
        ensures
            match r {
                Some(info) => price_info_of(self@) == Some((info.price_usd@, info.timestamp)),
                None => price_info_of(self@) is None,
            },
    {
        let data = match member_of(&self.root, "data") {
            Some(data) => data,
            None => { return None; },
        };
        let timestamp: u64 = match member_of(&self.root, "timestamp") {
            Some(number) => match number.as_u64() {
                Some(timestamp) => timestamp,
                None => { return None; },
            },
            None => { return None; },
        };
        let price = match member_of(data, "priceUsd") {
            Some(text) => match text.as_str() {
                Some(price) => price,
                None => { return None; },
            },
            None => { return None; },
        };
        Some(PriceInfo { price_usd: price.as_bytes_vec(), timestamp })
    }
}

} // verus!
