//! The price parser: from the bytes of a response to a [`Sample`].

use crate::codec::{parse, spec_parse, DecodeError};
use crate::document::{json_document, price_info_of, Document, PriceInfo};
use crate::sample::Sample;
use vstd::prelude::*;
use vstd::utf8::{decode_utf8, valid_utf8};

verus! {

/// Why a response gave no sample.
#[derive(Clone, Copy, Debug, PartialEq, Eq, Structural)]
pub enum ParseError {
    /// The bytes are not UTF-8.
    Encoding,
    /// The text is not a JSON document of the expected shape.
    Malformed,
    /// The price string is not a decimal number; the codec's reason is inside.
    NumericFormat(DecodeError),
}

/// What the bytes of a price string yield: the parts of the sample, or the
/// codec's failure as a parse error.
pub open spec fn spec_sample_of(price: Seq<u8>) -> Result<(u64, u32), ParseError> {
    match spec_parse(price) {
        Ok(parts) => Ok(parts),
        Err(e) => Err(ParseError::NumericFormat(e)),
    }
}

/// What the bytes of a response yield.
pub open spec fn spec_parse_response(bytes: Seq<u8>) -> Result<(u64, u32), ParseError> {
    if !valid_utf8(bytes) {
        Err(ParseError::Encoding)
    } else {
        match json_document(decode_utf8(bytes)) {
            None => Err(ParseError::Malformed),
            Some(document) => match price_info_of(document) {
                None => Err(ParseError::Malformed),
                Some(info) => spec_sample_of(info.0),
            },
        }
    }
}

/// The sample of a decoded response: its price string goes through the
/// codec, and the time of the quote is let go.
pub fn sample_of(info: &PriceInfo) -> (r: Result<Sample, ParseError>)
    ensures
        match r {
            Ok(sample) => spec_sample_of(info.price_usd@) == Ok::<(u64, u32), ParseError>(sample@),
            Err(e) => spec_sample_of(info.price_usd@) == Err::<(u64, u32), ParseError>(e),
        },
{
    match parse(info.price_usd.as_slice()) {
        Ok(sample) => Ok(sample),
        Err(e) => Err(ParseError::NumericFormat(e)),
    }
}

/// Reads the sample out of the body of a response.
///
/// The body is UTF-8 text, else `Encoding`. The text is a JSON document
/// with a string `priceUsd` in an object `data`, beside an unsigned integer
/// `timestamp`, else `Malformed`. The string is a decimal number that the
/// codec takes, else `NumericFormat`.
pub fn parse_response(bytes: &[u8]) -> (r: Result<Sample, ParseError>)
    ensures
        match r {
            Ok(sample) => spec_parse_response(bytes@) == Ok::<(u64, u32), ParseError>(sample@),
            Err(e) => spec_parse_response(bytes@) == Err::<(u64, u32), ParseError>(e),
        },
{
    let text = match core::str::from_utf8(bytes) {
        Ok(text) => text,
        Err(_) => { return Err(ParseError::Encoding); },
    };
    let document = match Document::decode(text) {
        Some(document) => document,
        None => { return Err(ParseError::Malformed); },
    };
    match document.price_info() {
        Some(info) => sample_of(&info),
        None => Err(ParseError::Malformed),
    }
}

} // verus!
