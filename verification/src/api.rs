//! What the two queries answer: a payload built from the cached location, or
//! the one not-found payload where the cache holds no fresh location.
//!
//! A query reads the cache once and does nothing else. A cache that was never
//! filled and one whose entry has expired give the same answer.

use vstd::prelude::*;

use crate::cache::{entry_view, lookup, CacheEntry, CacheEntryView, CountryCache, Entries};
use crate::refresh::LOCATION_KEY;

verus! {

/// Accuracy that is reported with every location, in meters. It is a fixed
/// figure for a location that was estimated from an address, not a measurement.
pub const ACCURACY_METERS: u32 = 600_000;

/// The code of the not-found payload.
pub const NOT_FOUND_CODE: u16 = 404;

/// A point, each coordinate as the bit pattern of a binary64 number of degrees.
#[derive(Clone, Copy, Debug, PartialEq, Eq, Structural)]
pub struct Location {
    pub lat: u64,
    pub lng: u64,
}

/// The answer of the location query on a hit.
#[derive(Debug, PartialEq, Eq)]
pub struct LocationResponse {
    pub location: Location,
    /// Accuracy in meters.
    pub accuracy: u32,
    /// How the location was found; always `ipf`.
    pub fallback: String,
}

/// The answer of the country query on a hit.
#[derive(Debug, PartialEq, Eq)]
pub struct CountryResponse {
    pub country_code: String,
    pub country_name: String,
    /// How the country was found; always `ipf`.
    pub fallback: String,
}

/// The answer of either query on a miss.
#[derive(Debug, PartialEq, Eq)]
pub struct ErrorResponse {
    pub error: ErrorDetail,
}

/// The body of an [`ErrorResponse`].
#[derive(Debug, PartialEq, Eq)]
pub struct ErrorDetail {
    pub errors: Vec<ErrorInfo>,
    pub code: u16,
    pub message: String,
}

/// One reason in an [`ErrorDetail`].
#[derive(Debug, PartialEq, Eq)]
pub struct ErrorInfo {
    pub domain: String,
    pub reason: String,
    pub message: String,
}

/// Whether `reply` is the location payload for `entry`.
pub open spec fn is_location_of(reply: LocationResponse, entry: CacheEntryView) -> bool {
    &&& reply.location.lat == entry.coordinates.0
    &&& reply.location.lng == entry.coordinates.1
    &&& reply.accuracy == ACCURACY_METERS
    &&& reply.fallback@ == "ipf"@
}

/// Whether `reply` is the country payload for `entry`.
pub open spec fn is_country_of(reply: CountryResponse, entry: CacheEntryView) -> bool {
    &&& reply.country_code@ == entry.country_code
    &&& reply.country_name@ == entry.country_name
    &&& reply.fallback@ == "ipf"@
}

/// Whether `reply` is the not-found payload.
pub open spec fn is_not_found(reply: ErrorResponse) -> bool {
    &&& reply.error.code == NOT_FOUND_CODE
    &&& reply.error.message@ == "Not found"@
    &&& reply.error.errors@.len() == 1
    &&& reply.error.errors@[0].domain@ == "geolocation"@
    &&& reply.error.errors@[0].reason@ == "notFound"@
    &&& reply.error.errors@[0].message@ == "Not found"@
}

/// Whether `reply` is the answer of the location query to what a read of the
/// cache found: a hit with the location of the entry, or the miss where
/// nothing was found.
pub open spec fn is_location_answer(
    found: Option<CacheEntryView>,
    reply: Result<LocationResponse, ErrorResponse>,
) -> bool {
    match found {
        Some(entry) => reply matches Ok(payload) && is_location_of(payload, entry),
        None => reply matches Err(payload) && is_not_found(payload),
    }
}

/// Whether `reply` is the answer of the country query to what a read of the
/// cache found: a hit with the country of the entry, or the miss where nothing
/// was found.
pub open spec fn is_country_answer(
    found: Option<CacheEntryView>,
    reply: Result<CountryResponse, ErrorResponse>,
) -> bool {
    match found {
        Some(entry) => reply matches Ok(payload) && is_country_of(payload, entry),
        None => reply matches Err(payload) && is_not_found(payload),
    }
}

/// Whether `reply` is the answer of the location query to a read of the
/// location key at some time.
pub open spec fn is_location_answer_at_some_time(
    entries: Entries,
    ttl: int,
    reply: Result<LocationResponse, ErrorResponse>,
) -> bool {
    exists|now: u128|
        is_location_answer(#[trigger] lookup(entries, ttl, LOCATION_KEY@, now as int), reply)
}

/// Whether `reply` is the answer of the country query to a read of the
/// location key at some time.
pub open spec fn is_country_answer_at_some_time(
    entries: Entries,
    ttl: int,
    reply: Result<CountryResponse, ErrorResponse>,
) -> bool {
    exists|now: u128|
        is_country_answer(#[trigger] lookup(entries, ttl, LOCATION_KEY@, now as int), reply)
}

/// The not-found payload.
pub fn not_found() -> (reply: ErrorResponse)
    ensures
        is_not_found(reply),
{
    let mut errors: Vec<ErrorInfo> = Vec::new();
    errors.push(
        ErrorInfo {
            domain: "geolocation".to_owned(),
            reason: "notFound".to_owned(),
            message: "Not found".to_owned(),
        },
    );
    ErrorResponse {
        error: ErrorDetail { errors, code: NOT_FOUND_CODE, message: "Not found".to_owned() },
    }
}

/// The answer of the location query to what a read of the cache found: the
/// location payload of the entry, or the not-found payload where nothing was
/// found.
pub fn location_reply(found: Option<CacheEntry>) -> (reply: Result<LocationResponse, ErrorResponse>)
    ensures
        is_location_answer(entry_view(found), reply),
{
    match found {
        Some(entry) => Ok(
            LocationResponse {
                location: Location { lat: entry.coordinates.0, lng: entry.coordinates.1 },
                accuracy: ACCURACY_METERS,
                fallback: "ipf".to_owned(),
            },
        ),
        None => Err(not_found()),
    }
}

/// The answer of the country query to what a read of the cache found: the
/// country payload of the entry, or the not-found payload where nothing was
/// found.
pub fn country_reply(found: Option<CacheEntry>) -> (reply: Result<CountryResponse, ErrorResponse>)
    ensures
        is_country_answer(entry_view(found), reply),
{
    match found {
        Some(entry) => Ok(
            CountryResponse {
                country_code: entry.country_code,
                country_name: entry.country_name,
                fallback: "ipf".to_owned(),
            },
        ),
        None => Err(not_found()),
    }
}

/// Answers the location query from one read of the cache at the time `now`: a
/// hit with the location of the entry under the location key where that entry
/// is present and fresh, a miss otherwise.
pub fn geolocate_at(cache: &CountryCache, now: u128) -> (reply: Result<
    LocationResponse,
    ErrorResponse,
>)
    ensures
        is_location_answer(lookup(cache@, cache.ttl_nanos(), LOCATION_KEY@, now as int), reply),
{
    location_reply(cache.get_at(LOCATION_KEY, now))
}

/// Answers the country query from one read of the cache at the time `now`: a
/// hit with the country of the entry under the location key where that entry
/// is present and fresh, a miss otherwise.
pub fn country_at(cache: &CountryCache, now: u128) -> (reply: Result<
    CountryResponse,
    ErrorResponse,
>)
    ensures
        is_country_answer(lookup(cache@, cache.ttl_nanos(), LOCATION_KEY@, now as int), reply),
{
    country_reply(cache.get_at(LOCATION_KEY, now))
}

/// Answers the location query from one read of the cache at the time that the
/// system clock shows: a hit with the location of the entry under the location
/// key where that entry is present and fresh at that time, a miss otherwise.
///
/// Which time the clock shows is not known here, so the contract says that
/// the answer is the answer to a read at some time. Where every time finds the
/// entry fresh a hit is owed, and where no time does, a miss.
pub fn geolocate(cache: &CountryCache) -> (reply: Result<LocationResponse, ErrorResponse>)
    ensures
        is_location_answer_at_some_time(cache@, cache.ttl_nanos(), reply),
{
    location_reply(cache.get(LOCATION_KEY))
}

/// Answers the country query from one read of the cache at the time that the
/// system clock shows: a hit with the country of the entry under the location
/// key where that entry is present and fresh at that time, a miss otherwise.
///
/// Which time the clock shows is not known here, so the contract says that
/// the answer is the answer to a read at some time. Where every time finds the
/// entry fresh a hit is owed, and where no time does, a miss.
pub fn country(cache: &CountryCache) -> (reply: Result<CountryResponse, ErrorResponse>)
    ensures
        is_country_answer_at_some_time(cache@, cache.ttl_nanos(), reply),
{
    country_reply(cache.get(LOCATION_KEY))
}

} // verus!
