//! What holds of reads, writes and sweeps, stated over the contents of a cache.

use vstd::prelude::*;

use crate::cache::{is_fresh, lookup, swept, CacheEntryView, Entries};

verus! {

/// A read finds nothing once the age of the entry has reached the time-to-live
/// (an age equal to it included), and finds the entry itself before that.
pub proof fn lemma_read_respects_ttl(entries: Entries, ttl: int, key: Seq<char>, now: int)
    requires
        entries.contains_key(key),
    ensures
        now - entries[key].timestamp >= ttl ==> lookup(entries, ttl, key, now) is None,
        now - entries[key].timestamp < ttl ==> lookup(entries, ttl, key, now) == Some(
            entries[key],
        ),
{
}

/// A read of a key under which nothing is present finds nothing.
pub proof fn lemma_read_of_absent_key(entries: Entries, ttl: int, key: Seq<char>, now: int)
    requires
        !entries.contains_key(key),
    ensures
        lookup(entries, ttl, key, now) is None,
{
}

/// Under a time-to-live above zero, a read of a key at the very time at which
/// an entry was fetched and written under it gives that entry back unchanged.
/// A later read does so as well while the entry is fresh.
pub proof fn lemma_write_then_read(
    entries: Entries,
    ttl: int,
    key: Seq<char>,
    entry: CacheEntryView,
    now: int,
)
    requires
        ttl > 0,
    ensures
        lookup(entries.insert(key, entry), ttl, key, entry.timestamp as int) == Some(entry),
        is_fresh(entry.timestamp as int, ttl, now) ==> lookup(
            entries.insert(key, entry),
            ttl,
            key,
            now,
        ) == Some(entry),
{
}

/// A write under one key changes no read of another key.
pub proof fn lemma_write_leaves_other_keys(
    entries: Entries,
    ttl: int,
    key: Seq<char>,
    entry: CacheEntryView,
    other: Seq<char>,
    now: int,
)
    requires
        other != key,
    ensures
        lookup(entries.insert(key, entry), ttl, other, now) == lookup(entries, ttl, other, now),
{
}

/// The contents after the entries of `writes` were written under `key`, one
/// after the other.
pub open spec fn written(entries: Entries, key: Seq<char>, writes: Seq<CacheEntryView>) -> Entries
    decreases writes.len(),
{
    if writes.len() == 0 {
        entries
    } else {
        written(entries, key, writes.drop_last()).insert(key, writes.last())
    }
}

/// An entry is replaced as a unit. A read of a key that takes place after any
/// number of writes under it finds nothing or the entry of the last of them,
/// whole: it does not find the country of one write beside the coordinates of
/// another.
pub proof fn lemma_read_finds_last_write_whole(
    entries: Entries,
    ttl: int,
    key: Seq<char>,
    writes: Seq<CacheEntryView>,
    now: int,
)
    requires
        writes.len() > 0,
    ensures
        lookup(written(entries, key, writes), ttl, key, now) is None || lookup(
            written(entries, key, writes),
            ttl,
            key,
            now,
        ) == Some(writes.last()),
{
}

/// A sweep removes every entry whose age has reached the time-to-live and no
/// other, and leaves each entry that it keeps as it was.
pub proof fn lemma_sweep_removes_all_and_only_expired(
    entries: Entries,
    ttl: int,
    now: int,
    key: Seq<char>,
)
    ensures
        swept(entries, ttl, now).contains_key(key) <==> entries.contains_key(key) && now
            - entries[key].timestamp < ttl,
        swept(entries, ttl, now).contains_key(key) ==> swept(entries, ttl, now)[key]
            == entries[key],
{
}

/// A sweep changes no read made at the time of the sweep.
pub proof fn lemma_sweep_keeps_reads(entries: Entries, ttl: int, now: int, key: Seq<char>)
    ensures
        lookup(swept(entries, ttl, now), ttl, key, now) == lookup(entries, ttl, key, now),
{
}

/// A sweep of a cache in which every entry is fresh removes nothing.
pub proof fn lemma_sweep_of_clean_cache(entries: Entries, ttl: int, now: int)
    requires
        forall|key: Seq<char>| #[trigger]
            entries.contains_key(key) ==> is_fresh(entries[key].timestamp as int, ttl, now),
    ensures
        swept(entries, ttl, now) == entries,
{
    assert(swept(entries, ttl, now) =~= entries);
}

/// A second sweep at the same time, with no write in between, removes nothing.
pub proof fn lemma_sweep_idempotent(entries: Entries, ttl: int, now: int)
    ensures
        swept(swept(entries, ttl, now), ttl, now) == swept(entries, ttl, now),
{
    assert(swept(swept(entries, ttl, now), ttl, now) =~= swept(entries, ttl, now));
}

/// A sweep followed, with no write in between, by a sweep at a later time
/// leaves what the later sweep alone would leave.
pub proof fn lemma_later_sweep_absorbs_earlier(
    entries: Entries,
    ttl: int,
    earlier: int,
    later: int,
)
    requires
        earlier <= later,
    ensures
        swept(swept(entries, ttl, earlier), ttl, later) == swept(entries, ttl, later),
{
    assert(swept(swept(entries, ttl, earlier), ttl, later) =~= swept(entries, ttl, later));
}

} // verus!
