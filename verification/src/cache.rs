//! The snapshot cache: for each calendar date the snapshot that was fetched
//! last for it.
//!
//! The cache has one writing end, `SnapshotCache`, and any number of reading
//! ends, `CacheReader`, which other threads may hold. Only the writing end
//! changes the cache, so what it holds is known to its owner at every moment;
//! a reading end sees whatever the writer has stored by the time it looks.
use crate::date::Date;
use crate::types::{LiveScoresResponse, Match};
use dashmap::DashMap;
use std::sync::Arc;
use vstd::prelude::*;

verus! {

#[verifier::external_type_specification]
#[verifier::external_body]
#[verifier::reject_recursive_types(K)]
#[verifier::reject_recursive_types(V)]
#[verifier::reject_recursive_types(S)]
pub struct ExDashMap<K, V, S>(DashMap<K, V, S>);

/// What a map of snapshots holds: for each day number that has an entry, the
/// matches of the snapshot stored under it.
pub uninterp spec fn cache_entries(map: DashMap<i32, LiveScoresResponse>) -> Map<i32, Seq<Match>>;

/// Makes an empty map behind a handle that can be shared.
///
/// Trusted: calls `DashMap::new`, which makes a map without entries, and
/// `Arc::new`, which holds it.
#[verifier::external_body]
fn new_map() -> (handle: Arc<DashMap<i32, LiveScoresResponse>>)
    ensures
        cache_entries(*handle) =~= Map::empty(),
{
    Arc::new(DashMap::new())
}

/// A second handle to the same map, for a reader.
///
/// Trusted: calls `Arc::clone`, which shares the map and copies nothing of
/// it. A reader's handle carries no claim on what the map holds.
#[verifier::external_body]
fn share_map(map: &Arc<DashMap<i32, LiveScoresResponse>>) -> (shared: Arc<DashMap<i32, LiveScoresResponse>>) {
    Arc::clone(map)
}

/// Stores `snapshot` under `day`.
///
/// Trusted: calls `DashMap::insert`, which puts the value under the key and
/// drops the value that the key had before; no other key is touched. The
/// claim is made for the one handle through which the map is written.
#[verifier::external_body]
fn map_insert(map: &mut Arc<DashMap<i32, LiveScoresResponse>>, day: i32, snapshot: LiveScoresResponse)
    ensures
        cache_entries(**final(map)) == cache_entries(**old(map)).insert(day, snapshot@),
{
    map.insert(day, snapshot);
}

/// A copy of the snapshot stored under `day`, through the writing handle.
///
/// Trusted: calls `DashMap::get`, which finds the entry of the key or
/// `None`, and `Ref::value`, which borrows the entry's value; the value is
/// cloned, so the copy holds the stored matches in their order.
#[verifier::external_body]
fn map_get(map: &Arc<DashMap<i32, LiveScoresResponse>>, day: i32) -> (found: Option<LiveScoresResponse>)
    ensures
        found is Some <==> cache_entries(**map).contains_key(day),
        found matches Some(snapshot) ==> snapshot@ == cache_entries(**map)[day],
{
    match map.get(&day) {
        Some(entry) => Some(entry.value().clone()),
        None => None,
    }
}

/// A copy of the snapshot stored under `day`, through a reading handle.
///
/// Trusted: calls `DashMap::get` and `Ref::value` as `map_get` does. The
/// writer may be at work on another thread, so nothing is claimed of what is
/// found.
#[verifier::external_body]
fn map_read(map: &Arc<DashMap<i32, LiveScoresResponse>>, day: i32) -> (found: Option<LiveScoresResponse>) {
    match map.get(&day) {
        Some(entry) => Some(entry.value().clone()),
        None => None,
    }
}

/// What a cache holds when `snapshot` has been stored for `date`: the new
/// entry in place of the old one for that date, every other date as before.
pub open spec fn stored(
    entries: Map<Date, Seq<Match>>,
    date: Date,
    snapshot: Seq<Match>,
) -> Map<Date, Seq<Match>> {
    entries.insert(date, snapshot)
}

/// What a lookup of `date` finds in a cache that holds `entries`.
pub open spec fn lookup(entries: Map<Date, Seq<Match>>, date: Date) -> Option<Seq<Match>> {
    if entries.contains_key(date) {
        Some(entries[date])
    } else {
        None
    }
}

/// The writing end of the cache.
pub struct SnapshotCache {
    map: Arc<DashMap<i32, LiveScoresResponse>>,
}

/// A reading end of the cache.
#[derive(Clone)]
pub struct CacheReader {
    map: Arc<DashMap<i32, LiveScoresResponse>>,
}

impl View for SnapshotCache {
    type V = Map<Date, Seq<Match>>;

    /// The dates that have a snapshot, each with the matches of its snapshot.
    closed spec fn view(&self) -> Map<Date, Seq<Match>> {
        Map::new(
            |date: Date| cache_entries(*self.map).contains_key(date.days),
            |date: Date| cache_entries(*self.map)[date.days],
        )
    }
}

impl SnapshotCache {
    /// An empty cache, with a reading end for it.
    pub fn new() -> (ends: (SnapshotCache, CacheReader))
        ensures
            ends.0@ == Map::<Date, Seq<Match>>::empty(),
    {
        let map = new_map();
        let reading = share_map(&map);
        let cache = SnapshotCache { map };
        assert(cache@ =~= Map::<Date, Seq<Match>>::empty());
        (cache, CacheReader { map: reading })
    }

    /// Stores `snapshot` as the snapshot of `date`. Whatever was stored for
    /// that date is replaced as a whole; no other date is touched.
    pub fn insert(&mut self, date: Date, snapshot: LiveScoresResponse)
        ensures
            final(self)@ == stored(old(self)@, date, snapshot@),
    {
        let ghost before = self@;
        map_insert(&mut self.map, date.days, snapshot);
        assert(self@ =~= before.insert(date, snapshot@));
    }

    /// The snapshot stored for `date`, or `None` where none was stored yet.
    pub fn get(&self, date: Date) -> (found: Option<LiveScoresResponse>)
        ensures
            match found {
                Some(snapshot) => lookup(self@, date) == Some(snapshot@),
                None => lookup(self@, date) is None,
            },
    {
        map_get(&self.map, date.days)
    }

    /// Whether a snapshot is stored for `date`.
    pub fn contains(&self, date: Date) -> (present: bool)
        ensures
            present == self@.contains_key(date),
    {
        self.get(date).is_some()
    }
}

impl CacheReader {
    /// The snapshot that the cache holds for `date` at this moment, or `None`
    /// where it holds none. The call does not wait for the writer.
    pub fn get_snapshot(&self, date: Date) -> (found: Option<LiveScoresResponse>) {
        map_read(&self.map, date.days)
    }
}

/// Storing a snapshot for one date leaves the lookup of every other date as
/// it was.
pub proof fn lemma_insert_leaves_other_dates(
    entries: Map<Date, Seq<Match>>,
    stored_date: Date,
    snapshot: Seq<Match>,
    other_date: Date,
)
    requires
        stored_date != other_date,
    ensures
        lookup(stored(entries, stored_date, snapshot), other_date) == lookup(entries, other_date),
{
}

/// A lookup finds the snapshot that was stored last for its date, whole and
/// unmixed with the one that was there before.
pub proof fn lemma_insert_replaces(
    entries: Map<Date, Seq<Match>>,
    date: Date,
    first: Seq<Match>,
    second: Seq<Match>,
)
    ensures
        lookup(stored(entries, date, first), date) == Some(first),
        lookup(stored(stored(entries, date, first), date, second), date) == Some(second),
        stored(stored(entries, date, first), date, second) == stored(entries, date, second),
{
    assert(stored(stored(entries, date, first), date, second) =~= stored(entries, date, second));
}

} // verus!
