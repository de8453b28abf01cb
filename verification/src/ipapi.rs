//! Taking the answer of a lookup: which answers count, how the body is read,
//! and the rule that decides whether what was read is a location fix.
//!
//! A fix is the tuple `(country_code, country_name, latitude, longitude)`.
//! Each coordinate is the bit pattern of an IEEE 754 binary64 number of
//! degrees.

use vstd::prelude::*;
use vstd::utf8::encode_utf8;

use crate::json::{
    json_document, json_member, json_number, json_text, member, number_of, parse_document, text_of,
};

verus! {

/// The address that is asked for the location of this host.
pub const LOOKUP_URL: &'static str =
    "http://ip-api.com/json/?fields=status,message,country,countryCode,lat,lon";

/// Whether an answer with the HTTP status `status` is taken as the answer of
/// the lookup: the statuses from 200 to 299 are, any other fails the attempt.
pub open spec fn is_success_status(status: u16) -> bool {
    200 <= status <= 299
}

/// The bit pattern of the binary64 number `+0.0`.
pub const POSITIVE_ZERO: u64 = 0;

/// The bit pattern of the binary64 number `-0.0`.
pub const NEGATIVE_ZERO: u64 = 0x8000_0000_0000_0000;

/// A fix with its texts as sequences of characters.
pub type FixView = (Seq<char>, Seq<char>, u64, u64);

/// The view of a fix.
pub open spec fn fix_view(fix: (String, String, u64, u64)) -> FixView {
    (fix.0@, fix.1@, fix.2, fix.3)
}

/// The view of a text that may be missing.
pub open spec fn optional_text_view(text: Option<String>) -> Option<Seq<char>> {
    match text {
        Some(s) => Some(s@),
        None => None,
    }
}

/// Whether `bits` is a binary64 number that compares equal to zero: `+0.0` or
/// `-0.0`.
pub open spec fn is_zero_degrees(bits: u64) -> bool {
    bits == POSITIVE_ZERO || bits == NEGATIVE_ZERO
}

/// Whether a fix may be written to the cache: the country code takes two
/// bytes in UTF-8 and neither coordinate is zero. Zero stands for "no fix".
pub open spec fn is_valid_fix(fix: FixView) -> bool {
    &&& encode_utf8(fix.0).len() == 2
    &&& !is_zero_degrees(fix.2)
    &&& !is_zero_degrees(fix.3)
}

/// The fix that four members of a lookup answer give: a text that is missing
/// counts as empty, a number that is missing as `+0.0`.
pub open spec fn fix_of_members(
    country_code: Option<Seq<char>>,
    country: Option<Seq<char>>,
    lat: Option<u64>,
    lon: Option<u64>,
) -> FixView {
    (
        match country_code {
            Some(s) => s,
            None => Seq::empty(),
        },
        match country {
            Some(s) => s,
            None => Seq::empty(),
        },
        match lat {
            Some(bits) => bits,
            None => POSITIVE_ZERO,
        },
        match lon {
            Some(bits) => bits,
            None => POSITIVE_ZERO,
        },
    )
}

/// The fix of an answer that says nothing: empty texts and `+0.0` twice.
pub open spec fn empty_fix() -> FixView {
    fix_of_members(None, None, None, None)
}

/// The fix that the body `text` of a lookup answer gives. Where the text is a
/// JSON document, it is made of the members `countryCode`, `country`, `lat`
/// and `lon` of the document, as far as each is there with a text or a number
/// as its value. Where the text is no JSON document, it is the empty fix.
pub open spec fn ipapi_fix(text: Seq<char>) -> FixView {
    match json_document(text) {
        Some(document) => fix_of_members(
            json_text(json_member(document, "countryCode"@)),
            json_text(json_member(document, "country"@)),
            json_number(json_member(document, "lat"@)),
            json_number(json_member(document, "lon"@)),
        ),
        None => empty_fix(),
    }
}

/// Whether an answer with the HTTP status `status` is taken as the answer of
/// the lookup.
pub fn status_is_success(status: u16) -> (taken: bool)
    ensures
        taken == is_success_status(status),
{
    200 <= status && status <= 299
}

/// Whether `bits` is a binary64 number that compares equal to zero.
pub fn is_zero(bits: u64) -> (zero: bool)
    ensures
        zero == is_zero_degrees(bits),
{
    bits == POSITIVE_ZERO || bits == NEGATIVE_ZERO
}

/// Whether a fix may be written to the cache.
pub fn is_valid(fix: &(String, String, u64, u64)) -> (valid: bool)
    ensures
        valid == is_valid_fix(fix_view(*fix)),
{
    fix.0.as_str().as_bytes().len() == 2 && !is_zero(fix.2) && !is_zero(fix.3)
}

/// Puts a fix together from the four members of a lookup answer, with the
/// empty text and `+0.0` in place of what is missing.
pub fn fix_from_members(
    country_code: Option<String>,
    country: Option<String>,
    lat: Option<u64>,
    lon: Option<u64>,
) -> (fix: (String, String, u64, u64))
    ensures
        fix_view(fix) == fix_of_members(
            optional_text_view(country_code),
            optional_text_view(country),
            lat,
            lon,
        ),
{
    let code: String = match country_code {
        Some(s) => s,
        None => String::new(),
    };
    let name: String = match country {
        Some(s) => s,
        None => String::new(),
    };
    let latitude: u64 = match lat {
        Some(bits) => bits,
        None => POSITIVE_ZERO,
    };
    let longitude: u64 = match lon {
        Some(bits) => bits,
        None => POSITIVE_ZERO,
    };
    (code, name, latitude, longitude)
}

/// Reads a fix from the body of a lookup answer. No body is refused: a
/// document that lacks a member, or holds it with a value of another kind,
/// gives the default in its place, and a body that is no JSON document gives
/// the default in every place. Such a fix is not valid, so it is never written.
pub fn extract_ipapi(json_str: &str) -> (fix: (String, String, u64, u64))
    ensures
        fix_view(fix) == ipapi_fix(json_str@),
{
    match parse_document(json_str) {
        Ok(document) => {
            let country_code = text_of(member(&document, "countryCode"));
            let country = text_of(member(&document, "country"));
            let lat = number_of(member(&document, "lat"));
            let lon = number_of(member(&document, "lon"));
            fix_from_members(country_code, country, lat, lon)
        },
        Err(_) => fix_from_members(None, None, None, None),
    }
}

/// The empty fix is not valid.
pub proof fn lemma_empty_fix_is_not_valid()
    ensures
        !is_valid_fix(empty_fix()),
{
}

} // verus!
