//! The decisions of the refresher, the one writer of the cache.
//!
//! The refresher runs for as long as the process does. It starts with
//! [`first_action`], performs each action outside this library, and reports
//! how the action ended with [`update_location_step`], which changes the cache
//! and names the next action: after a lookup, however it ended, a pause of one
//! time-to-live; after the pause a sweep and the next lookup.
//!
//! The cache has to be held for writing only while an event changes it.
//! [`changes_cache`] tells whether an event does; for one that does not,
//! [`action_after`] names the next action without the cache.

use vstd::prelude::*;
use vstd::utf8::encode_utf8;

use crate::cache::{swept, CacheEntry, CacheEntryView, CountryCache, Entries};
use crate::clock::{reading_or_epoch, unix_nanos};
use crate::ipapi::{fix_view, is_valid, is_valid_fix, is_zero_degrees, FixView, LOOKUP_URL};

verus! {

/// The one key under which the refresher writes.
pub const LOCATION_KEY: &'static str = "location";

/// Retries of one lookup.
pub const LOOKUP_MAX_RETRIES: u32 = 6;

/// Pause after the first failed attempt of a lookup, in seconds.
pub const LOOKUP_RETRY_INTERVAL: u64 = 30;

/// How an action of the refresher ended.
#[derive(Debug, PartialEq, Eq)]
pub enum RefreshEvent {
    /// The lookup was answered, and this fix was read from the answer.
    Fetched((String, String, u64, u64)),
    /// The lookup failed on its last attempt.
    FetchFailed,
    /// The pause is over.
    Slept,
}

/// What the refresher does next.
#[derive(Clone, Copy, Debug, PartialEq, Eq)]
pub enum RefreshAction {
    /// Fetch `url`, with up to `max_retries` retries and a first pause of
    /// `retry_interval` seconds.
    Fetch { url: &'static str, max_retries: u32, retry_interval: u64 },
    /// Pause for this many seconds.
    Sleep { seconds: u64 },
}

/// The lookup that the refresher makes.
pub open spec fn lookup_action() -> RefreshAction {
    RefreshAction::Fetch {
        url: LOOKUP_URL,
        max_retries: LOOKUP_MAX_RETRIES,
        retry_interval: LOOKUP_RETRY_INTERVAL,
    }
}

/// The entry that is written for `fix` at the time `now`.
pub open spec fn entry_of(fix: FixView, now: u128) -> CacheEntryView {
    CacheEntryView {
        country_code: fix.0,
        country_name: fix.1,
        coordinates: (fix.2, fix.3),
        timestamp: now,
    }
}

/// The cache after `fix` was handled at `now`: a valid fix is written under
/// the location key, any other changes nothing.
pub open spec fn recorded(entries: Entries, fix: FixView, now: u128) -> Entries {
    if is_valid_fix(fix) {
        entries.insert(LOCATION_KEY@, entry_of(fix, now))
    } else {
        entries
    }
}

/// The cache after `event` was handled at `now`.
pub open spec fn after_event(entries: Entries, ttl: int, event: RefreshEvent, now: u128) -> Entries {
    match event {
        RefreshEvent::Fetched(fix) => recorded(entries, fix_view(fix), now),
        RefreshEvent::FetchFailed => entries,
        RefreshEvent::Slept => swept(entries, ttl, now as int),
    }
}

/// Whether `after` is the cache that handling `event` leaves at some time.
pub open spec fn after_event_at_some_time(
    entries: Entries,
    ttl: int,
    event: RefreshEvent,
    after: Entries,
) -> bool {
    exists|now: u128| after == #[trigger] after_event(entries, ttl, event, now)
}

/// Whether handling `event` can change the cache: a valid fix is written and
/// the end of a pause brings a sweep, while a failed lookup and a fix that is
/// not valid leave the cache alone.
pub open spec fn event_changes_cache(event: RefreshEvent) -> bool {
    match event {
        RefreshEvent::Fetched(fix) => is_valid_fix(fix_view(fix)),
        RefreshEvent::FetchFailed => false,
        RefreshEvent::Slept => true,
    }
}

/// The action that follows `event` under a time-to-live of `ttl_seconds`.
pub open spec fn next_action(event: RefreshEvent, ttl_seconds: u64) -> RefreshAction {
    match event {
        RefreshEvent::Fetched(_) => RefreshAction::Sleep { seconds: ttl_seconds },
        RefreshEvent::FetchFailed => RefreshAction::Sleep { seconds: ttl_seconds },
        RefreshEvent::Slept => lookup_action(),
    }
}

/// Whether handling `event` can change the cache, so that the cache has to be
/// held for writing.
pub fn changes_cache(event: &RefreshEvent) -> (changes: bool)
    ensures
        changes == event_changes_cache(*event),
{
    match event {
        RefreshEvent::Fetched(fix) => is_valid(fix),
        RefreshEvent::FetchFailed => false,
        RefreshEvent::Slept => true,
    }
}

/// The action that follows `event` under a time-to-live of `ttl_seconds`.
pub fn action_after(event: &RefreshEvent, ttl_seconds: u64) -> (action: RefreshAction)
    ensures
        action == next_action(*event, ttl_seconds),
{
    match event {
        RefreshEvent::Fetched(_) => RefreshAction::Sleep { seconds: ttl_seconds },
        RefreshEvent::FetchFailed => RefreshAction::Sleep { seconds: ttl_seconds },
        RefreshEvent::Slept => first_action(),
    }
}

/// The action with which the refresher starts: a lookup.
pub fn first_action() -> (action: RefreshAction)
    ensures
        action == lookup_action(),
{
    RefreshAction::Fetch {
        url: LOOKUP_URL,
        max_retries: LOOKUP_MAX_RETRIES,
        retry_interval: LOOKUP_RETRY_INTERVAL,
    }
}

/// Handles the fix that a lookup gave at the time `now`: writes it under the
/// location key, stamped with `now`, where it is valid, and leaves the cache
/// as it is otherwise. Tells whether it wrote.
pub fn record_fix_at(cache: &mut CountryCache, fix: (String, String, u64, u64), now: u128) -> (written:
    bool)
    ensures
        final(cache)@ == recorded(old(cache)@, fix_view(fix), now),
        final(cache).spec_ttl_seconds() == old(cache).spec_ttl_seconds(),
        written == is_valid_fix(fix_view(fix)),
{
    if is_valid(&fix) {
        let entry = CacheEntry {
            country_code: fix.0,
            country_name: fix.1,
            coordinates: (fix.2, fix.3),
            timestamp: now,
        };
        cache.insert(LOCATION_KEY.to_owned(), entry);
        true
    } else {
        false
    }
}

/// Handles `event` at the time `now` and names the next action: a valid fix is
/// written under the location key, stamped with `now`; the end of a pause
/// brings a sweep at `now`; any other event leaves the cache as it is.
pub fn update_location_step_at(cache: &mut CountryCache, event: RefreshEvent, now: u128) -> (action:
    RefreshAction)
    ensures
        final(cache)@ == after_event(old(cache)@, old(cache).ttl_nanos(), event, now),
        final(cache).spec_ttl_seconds() == old(cache).spec_ttl_seconds(),
        action == next_action(event, old(cache).spec_ttl_seconds()),
{
    let action = action_after(&event, cache.ttl_seconds());
    match event {
        RefreshEvent::Fetched(fix) => {
            record_fix_at(cache, fix, now);
        },
        RefreshEvent::FetchFailed => {},
        RefreshEvent::Slept => {
            cache.clear_expired_at(now);
        },
    }
    action
}

/// Handles `event` at the time that the system clock shows and names the next
/// action.
///
/// The next action does not depend on the clock. Which time the clock shows
/// is not known here, so the contract says that the cache is left as handling
/// the event at some time leaves it.
pub fn update_location_step(cache: &mut CountryCache, event: RefreshEvent) -> (action:
    RefreshAction)
    ensures
        after_event_at_some_time(
            old(cache)@,
            old(cache).ttl_nanos(),
            event,
            final(cache)@,
        ),
        final(cache).spec_ttl_seconds() == old(cache).spec_ttl_seconds(),
        action == next_action(event, old(cache).spec_ttl_seconds()),
{
    let now: u128 = reading_or_epoch(unix_nanos());
    update_location_step_at(cache, event, now)
}

/// A fix whose country code does not take two bytes, or whose latitude and
/// longitude are both zero, is never written: the cache stays as it was.
pub proof fn lemma_invalid_fix_is_not_written(entries: Entries, fix: FixView, now: u128)
    requires
        encode_utf8(fix.0).len() != 2 || (is_zero_degrees(fix.2) && is_zero_degrees(fix.3)),
    ensures
        recorded(entries, fix, now) == entries,
{
}

/// One coordinate that is zero is enough for a fix not to be written.
pub proof fn lemma_zero_coordinate_is_not_written(entries: Entries, fix: FixView, now: u128)
    requires
        is_zero_degrees(fix.2) || is_zero_degrees(fix.3),
    ensures
        recorded(entries, fix, now) == entries,
{
}

/// A lookup that failed changes nothing: what was cached before stays for the
/// readers, stale or not.
pub proof fn lemma_failed_lookup_changes_nothing(entries: Entries, ttl: int, now: u128)
    ensures
        after_event(entries, ttl, RefreshEvent::FetchFailed, now) == entries,
{
}

/// An event of which [`changes_cache`] says that it changes nothing leaves
/// the cache as it was, at whatever time it is handled. For such an event
/// [`update_location_step`] does no more than [`action_after`] does.
pub proof fn lemma_event_without_change(entries: Entries, ttl: int, event: RefreshEvent, now: u128)
    requires
        !event_changes_cache(event),
    ensures
        after_event(entries, ttl, event, now) == entries,
{
}

} // verus!
