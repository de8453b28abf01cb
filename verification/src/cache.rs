//! The location cache: entries under text keys, each with the time at which it
//! was fetched, and one time-to-live for all of them.
//!
//! Time is counted in nanoseconds since the Unix epoch. An entry fetched at
//! `t` is fresh at `now` while `now - t` is below the time-to-live; from then
//! on a read treats it as absent, whether or not a sweep has removed it.

use vstd::prelude::*;

use crate::clock::{reading_or_epoch, unix_nanos};

verus! {

/// Nanoseconds in one second.
pub const NANOS_PER_SECOND: u128 = 1_000_000_000;

/// The last known location fix.
///
/// A coordinate is held as the bit pattern of an IEEE 754 binary64 number of
/// degrees, so that it passes through the cache without rounding.
#[derive(Debug, PartialEq, Eq)]
pub struct CacheEntry {
    /// Two-letter country code.
    pub country_code: String,
    /// Country name; may be empty.
    pub country_name: String,
    /// Latitude and longitude, each as the bit pattern of a binary64 number.
    pub coordinates: (u64, u64),
    /// When the fix was acquired, in nanoseconds since the Unix epoch.
    pub timestamp: u128,
}

/// What a [`CacheEntry`] holds, with texts as sequences of characters.
pub struct CacheEntryView {
    pub country_code: Seq<char>,
    pub country_name: Seq<char>,
    pub coordinates: (u64, u64),
    pub timestamp: u128,
}

impl View for CacheEntry {
    type V = CacheEntryView;

    open spec fn view(&self) -> CacheEntryView {
        CacheEntryView {
            country_code: self.country_code@,
            country_name: self.country_name@,
            coordinates: self.coordinates,
            timestamp: self.timestamp,
        }
    }
}

impl Clone for CacheEntry {
    fn clone(&self) -> (copy: Self)
        ensures
            copy == *self,
    {
        CacheEntry {
            country_code: self.country_code.clone(),
            country_name: self.country_name.clone(),
            coordinates: self.coordinates,
            timestamp: self.timestamp,
        }
    }
}

/// The contents of a cache: at most one entry under each key.
pub type Entries = Map<Seq<char>, CacheEntryView>;

/// Whether what was fetched at `fetched_at` can still be used at `now` under a
/// time-to-live of `ttl`. An age equal to `ttl` is already too old.
pub open spec fn is_fresh(fetched_at: int, ttl: int, now: int) -> bool {
    now - fetched_at < ttl
}

/// What a read of `key` at `now` gives: the entry under `key` where there is
/// one and it is fresh, nothing otherwise.
pub open spec fn lookup(entries: Entries, ttl: int, key: Seq<char>, now: int) -> Option<
    CacheEntryView,
> {
    if entries.contains_key(key) && is_fresh(entries[key].timestamp as int, ttl, now) {
        Some(entries[key])
    } else {
        None
    }
}

/// What a sweep at `now` leaves: the fresh entries, each as it was.
pub open spec fn swept(entries: Entries, ttl: int, now: int) -> Entries {
    Map::new(
        |key: Seq<char>|
            entries.contains_key(key) && is_fresh(entries[key].timestamp as int, ttl, now),
        |key: Seq<char>| entries[key],
    )
}

/// The view of an entry that may be missing.
pub open spec fn entry_view(entry: Option<CacheEntry>) -> Option<CacheEntryView> {
    match entry {
        Some(e) => Some(e@),
        None => None,
    }
}

/// Whether `found` is what a read of `key` finds at some time.
pub open spec fn found_at_some_time(
    entries: Entries,
    ttl: int,
    key: Seq<char>,
    found: Option<CacheEntryView>,
) -> bool {
    exists|now: u128| found == #[trigger] lookup(entries, ttl, key, now as int)
}

/// Whether `after` is what a sweep of `before` leaves at some time.
pub open spec fn swept_at_some_time(before: Entries, ttl: int, after: Entries) -> bool {
    exists|now: u128| after == #[trigger] swept(before, ttl, now as int)
}

/// No key stands in two slots.
spec fn keys_distinct(slots: Seq<(String, CacheEntry)>) -> bool {
    forall|i: int, j: int|
        0 <= i < j < slots.len() ==> (#[trigger] slots[i]).0@ != (#[trigger] slots[j]).0@
}

/// Whether some slot holds `key`.
spec fn has_key(slots: Seq<(String, CacheEntry)>, key: Seq<char>) -> bool {
    exists|i: int| 0 <= i < slots.len() && (#[trigger] slots[i]).0@ == key
}

/// A slot that holds `key`, where there is one.
spec fn slot_of(slots: Seq<(String, CacheEntry)>, key: Seq<char>) -> int {
    choose|i: int| 0 <= i < slots.len() && (#[trigger] slots[i]).0@ == key
}

/// The map that a list of slots stands for.
spec fn slots_map(slots: Seq<(String, CacheEntry)>) -> Entries {
    Map::new(
        |key: Seq<char>| has_key(slots, key),
        |key: Seq<char>| slots[slot_of(slots, key)].1@,
    )
}

/// Under distinct keys, slot `i` is the one that the map reads for its key.
proof fn lemma_slot_is_read(slots: Seq<(String, CacheEntry)>, i: int)
    requires
        keys_distinct(slots),
        0 <= i < slots.len(),
    ensures
        slots_map(slots).contains_key(slots[i].0@),
        slots_map(slots)[slots[i].0@] == slots[i].1@,
{
    let key = slots[i].0@;
    assert(has_key(slots, key));
    let j = slot_of(slots, key);
    assert(0 <= j < slots.len() && slots[j].0@ == key);
    if j < i {
        assert(slots[j].0@ != slots[i].0@);
    } else if i < j {
        assert(slots[i].0@ != slots[j].0@);
    }
}

/// A key→entry cache with one time-to-live for every entry.
#[derive(Debug)]
pub struct CountryCache {
    slots: Vec<(String, CacheEntry)>,
    ttl: u64,
}

impl View for CountryCache {
    type V = Entries;

    /// Every entry that is physically present, fresh or not.
    closed spec fn view(&self) -> Entries {
        slots_map(self.slots@)
    }
}

impl CountryCache {
    #[verifier::type_invariant]
    spec fn well_formed(&self) -> bool {
        keys_distinct(self.slots@)
    }

    /// The time-to-live in seconds, as given at construction.
    pub closed spec fn spec_ttl_seconds(&self) -> u64 {
        self.ttl
    }

    /// The time-to-live in nanoseconds.
    pub open spec fn ttl_nanos(&self) -> int {
        self.spec_ttl_seconds() * NANOS_PER_SECOND
    }

    /// An empty cache whose entries will live for `ttl_seconds`.
    pub fn new(ttl_seconds: u64) -> (cache: Self)
        ensures
            cache@ == Map::<Seq<char>, CacheEntryView>::empty(),
            cache.spec_ttl_seconds() == ttl_seconds,
    {
        let cache = CountryCache { slots: Vec::new(), ttl: ttl_seconds };
        assert(cache@ =~= Map::<Seq<char>, CacheEntryView>::empty());
        cache
    }

    /// The time-to-live in seconds.
    #[verifier::when_used_as_spec(spec_ttl_seconds)]
    pub fn ttl_seconds(&self) -> (ttl: u64)
        ensures
            ttl == self.spec_ttl_seconds(),
    {
        self.ttl
    }

    /// Whether an entry is physically present under `key`, fresh or not.
    pub fn contains_key(&self, key: &str) -> (present: bool)
        ensures
            present == self@.contains_key(key@),
    {
        let owned: String = key.to_owned();
        find_slot(&self.slots, &owned).is_some()
    }

    /// Reads `key` at the time `now`: a copy of the entry where one is present
    /// and its age is below the time-to-live, `None` otherwise.
    pub fn get_at(&self, key: &str, now: u128) -> (found: Option<CacheEntry>)
        ensures
            entry_view(found) == lookup(self@, self.ttl_nanos(), key@, now as int),
    {
        let owned: String = key.to_owned();
        match find_slot(&self.slots, &owned) {
            Some(i) => {
                proof {
                    use_type_invariant(self);
                    lemma_slot_is_read(self.slots@, i as int);
                }
                if fresh_at(self.slots[i].1.timestamp, self.ttl, now) {
                    Some(self.slots[i].1.clone())
                } else {
                    None
                }
            },
            None => None,
        }
    }

    /// Reads `key` at the time that the system clock shows: a copy of the
    /// entry where one is present and its age at that time is below the
    /// time-to-live, `None` otherwise.
    ///
    /// Which time the clock shows is not known here, so the contract says that
    /// what is found is what a read at some time finds.
    pub fn get(&self, key: &str) -> (found: Option<CacheEntry>)
        ensures
            found_at_some_time(self@, self.ttl_nanos(), key@, entry_view(found)),
    {
        let now: u128 = reading_or_epoch(unix_nanos());
        self.get_at(key, now)
    }

    /// Puts `value` under `key`, in place of any entry that was there.
    pub fn insert(&mut self, key: String, value: CacheEntry)
        ensures
            final(self)@ == old(self)@.insert(key@, value@),
            final(self).spec_ttl_seconds() == old(self).spec_ttl_seconds(),
    {
        proof {
            use_type_invariant(&*self);
        }
        let mut slots: Vec<(String, CacheEntry)> = Vec::new();
        core::mem::swap(&mut self.slots, &mut slots);
        put_slot(&mut slots, key, value);
        self.slots = slots;
    }

    /// Removes, at the time `now`, every entry whose age has reached the
    /// time-to-live, and no other.
    pub fn clear_expired_at(&mut self, now: u128)
        ensures
            final(self)@ == swept(old(self)@, old(self).ttl_nanos(), now as int),
            final(self).spec_ttl_seconds() == old(self).spec_ttl_seconds(),
    {
        proof {
            use_type_invariant(&*self);
        }
        let mut slots: Vec<(String, CacheEntry)> = Vec::new();
        core::mem::swap(&mut self.slots, &mut slots);
        drop_stale(&mut slots, self.ttl, now);
        self.slots = slots;
    }

    /// Removes every entry that is expired at the time that the system clock
    /// shows, and no other.
    ///
    /// Which time the clock shows is not known here, so the contract says that
    /// the cache is left as a sweep at some time leaves it.
    pub fn clear_expired(&mut self)
        ensures
            swept_at_some_time(old(self)@, old(self).ttl_nanos(), final(self)@),
            final(self).spec_ttl_seconds() == old(self).spec_ttl_seconds(),
    {
        let now: u128 = reading_or_epoch(unix_nanos());
        self.clear_expired_at(now);
    }
}

/// The slot that holds `key`, if any.
fn find_slot(slots: &Vec<(String, CacheEntry)>, key: &String) -> (found: Option<usize>)
    ensures
        match found {
            Some(i) => i < slots.len() && slots[i as int].0@ == key@,
            None => !has_key(slots@, key@),
        },
{
    let mut i: usize = 0;
    while i < slots.len()
        invariant
            i <= slots.len(),
            forall|j: int| 0 <= j < i ==> (#[trigger] slots[j]).0@ != key@,
        decreases slots.len() - i,
    {
        if slots[i].0 == *key {
            return Some(i);
        }
        i = i + 1;
    }
    None
}

/// Writes `value` into the slot of `key`, or into a new slot where `key` has
/// none.
fn put_slot(slots: &mut Vec<(String, CacheEntry)>, key: String, value: CacheEntry)
    requires
        keys_distinct(old(slots)@),
    ensures
        keys_distinct(final(slots)@),
        slots_map(final(slots)@) == slots_map(old(slots)@).insert(key@, value@),
{
    let ghost before = slots@;
    let ghost k = key@;
    let ghost v = value@;
    match find_slot(slots, &key) {
        Some(i) => {
            slots.set(i, (key, value));
        },
        None => {
            slots.push((key, value));
        },
    }
    proof {
        let after = slots@;
        assert(keys_distinct(after));
        assert forall|q: Seq<char>| #[trigger]
            slots_map(after).contains_key(q) == (q == k || slots_map(before).contains_key(
                q,
            )) by {
            if has_key(after, q) {
                let j = slot_of(after, q);
                if after[j].0@ != k {
                    assert(before[j].0@ == q);
                }
            }
            if has_key(before, q) {
                let j = slot_of(before, q);
                assert(after[j].0@ == q);
            }
            if q == k {
                if has_key(before, k) {
                    let j = slot_of(before, k);
                    assert(after[j].0@ == k);
                } else {
                    assert(after[after.len() - 1].0@ == k);
                }
            }
        }
        assert forall|q: Seq<char>| #[trigger]
            slots_map(after).contains_key(q) implies slots_map(after)[q] == (if q == k {
            v
        } else {
            slots_map(before)[q]
        }) by {
            let j = slot_of(after, q);
            lemma_slot_is_read(after, j);
            if q != k {
                assert(before[j] == after[j]);
                lemma_slot_is_read(before, j);
            }
        }
        assert(slots_map(after) =~= slots_map(before).insert(k, v));
    }
}

/// Taking out slot `i` takes its key, and nothing else, out of the map.
proof fn lemma_remove_slot(slots: Seq<(String, CacheEntry)>, i: int)
    requires
        keys_distinct(slots),
        0 <= i < slots.len(),
    ensures
        keys_distinct(slots.remove(i)),
        slots_map(slots.remove(i)) == slots_map(slots).remove(slots[i].0@),
{
    let rest = slots.remove(i);
    let key = slots[i].0@;
    assert forall|a: int, b: int| 0 <= a < b < rest.len() implies (#[trigger] rest[a]).0@ != (
    #[trigger] rest[b]).0@ by {
        let a0 = if a < i { a } else { a + 1 };
        let b0 = if b < i { b } else { b + 1 };
        assert(rest[a] == slots[a0] && rest[b] == slots[b0]);
    }
    assert forall|q: Seq<char>| #[trigger]
        slots_map(rest).contains_key(q) == (q != key && slots_map(slots).contains_key(q)) by {
        if has_key(rest, q) {
            let j = slot_of(rest, q);
            let j0 = if j < i { j } else { j + 1 };
            assert(slots[j0].0@ == q);
            if j0 < i {
                assert(slots[j0].0@ != slots[i].0@);
            } else {
                assert(slots[i].0@ != slots[j0].0@);
            }
        }
        if q != key && has_key(slots, q) {
            let j = slot_of(slots, q);
            let j1 = if j < i { j } else { j - 1 };
            assert(rest[j1].0@ == q);
        }
    }
    assert forall|q: Seq<char>| #[trigger]
        slots_map(rest).contains_key(q) implies slots_map(rest)[q] == slots_map(slots)[q] by {
        let j = slot_of(rest, q);
        let j0 = if j < i { j } else { j + 1 };
        lemma_slot_is_read(rest, j);
        assert(rest[j] == slots[j0]);
        lemma_slot_is_read(slots, j0);
    }
    assert(slots_map(rest) =~= slots_map(slots).remove(key));
}

/// Removes the slots whose entry is not fresh at `now`.
fn drop_stale(slots: &mut Vec<(String, CacheEntry)>, ttl_seconds: u64, now: u128)
    requires
        keys_distinct(old(slots)@),
    ensures
        keys_distinct(final(slots)@),
        slots_map(final(slots)@) == swept(
            slots_map(old(slots)@),
            ttl_seconds * NANOS_PER_SECOND,
            now as int,
        ),
{
    let ghost ttl: int = ttl_seconds * NANOS_PER_SECOND;
    let ghost goal = swept(slots_map(slots@), ttl, now as int);
    let mut i: usize = 0;
    while i < slots.len()
        invariant
            i <= slots.len(),
            ttl == ttl_seconds * NANOS_PER_SECOND,
            keys_distinct(slots@),
            forall|j: int|
                0 <= j < i ==> is_fresh((#[trigger] slots[j]).1.timestamp as int, ttl, now as int),
            swept(slots_map(slots@), ttl, now as int) == goal,
        decreases slots.len() - i,
    {
        if fresh_at(slots[i].1.timestamp, ttl_seconds, now) {
            i = i + 1;
        } else {
            let ghost full = slots@;
            slots.remove(i);
            proof {
                lemma_slot_is_read(full, i as int);
                lemma_remove_slot(full, i as int);
                assert(swept(slots_map(slots@), ttl, now as int) =~= swept(
                    slots_map(full),
                    ttl,
                    now as int,
                ));
            }
        }
    }
    proof {
        assert forall|q: Seq<char>| #[trigger]
            slots_map(slots@).contains_key(q) implies is_fresh(
            slots_map(slots@)[q].timestamp as int,
            ttl,
            now as int,
        ) by {
            let j = slot_of(slots@, q);
            lemma_slot_is_read(slots@, j);
        }
        assert(slots_map(slots@) =~= swept(slots_map(slots@), ttl, now as int));
    }
}

/// Whether an entry with this timestamp is fresh at `now`.
fn fresh_at(timestamp: u128, ttl_seconds: u64, now: u128) -> (fresh: bool)
    ensures
        fresh == is_fresh(timestamp as int, ttl_seconds * NANOS_PER_SECOND, now as int),
{
    if now < timestamp {
        true
    } else {
        now - timestamp < (ttl_seconds as u128) * NANOS_PER_SECOND
    }
}

} // verus!
