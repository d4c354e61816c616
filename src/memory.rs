//! A backend that keeps sessions in process memory, expiring them lazily.
use vstd::prelude::*;

use serde_json::Value;

use crate::data::Data;
use crate::error::SessionError;
use crate::keymap::KeyMap;
use crate::storage::Storage;

verus! {

#[verifier::external_type_specification]
#[verifier::external_body]
pub struct ExInstant(std::time::Instant);

/// Relies on `Instant::now`: a reading of the monotonic clock.
pub assume_specification[ std::time::Instant::now ]() -> std::time::Instant;

/// Relies on `Instant::elapsed`: the time passed since the reading.
pub assume_specification[ std::time::Instant::elapsed ](i: &std::time::Instant) -> std::time::Duration;

/// Relies on `Duration::as_millis`: the whole milliseconds in the duration.
pub assume_specification[ std::time::Duration::as_millis ](d: &std::time::Duration) -> u128;

/// A stored record: the data, and the clock reading (in milliseconds) up to
/// which it is live.
#[derive(Debug)]
pub struct Record {
    expires_at: u128,
    data: Data,
}

/// The instant, in milliseconds, at which a record stored at `now` with a
/// lifetime of `ttl_secs` seconds expires.
pub open spec fn expiry(now: int, ttl_secs: int) -> int {
    now + ttl_secs * 1000
}

/// An in-memory backend. Time is read in milliseconds since the backend was
/// made; a record is live up to and including its expiry instant.
#[derive(Debug)]
pub struct MemoryStorage {
    started: std::time::Instant,
    records: KeyMap<Record>,
}

impl MemoryStorage {
    /// The expiry instant of each record.
    pub closed spec fn expiries(&self) -> Map<Seq<char>, int> {
        self.records@.map_values(|r: Record| r.expires_at as int)
    }

    /// Whether `key` holds a record that is live at `now`.
    pub open spec fn live_at(&self, key: Seq<char>, now: int) -> bool {
        self.records().contains_key(key) && now <= self.expiries()[key]
    }

    /// An empty backend.
    pub fn new() -> (r: MemoryStorage)
        ensures
            r.wf(),
            r.records() == Map::<Seq<char>, Map<Seq<char>, Value>>::empty(),
    {
        let r = MemoryStorage { started: std::time::Instant::now(), records: KeyMap::new() };
        assert(r.records() =~= Map::<Seq<char>, Map<Seq<char>, Value>>::empty());
        r
    }

    /// The clock: milliseconds since the backend was made, capped at the
    /// largest `u64`.
    pub fn now_millis(&self) -> u64 {
        let ms = self.started.elapsed().as_millis();
        if ms > u64::MAX as u128 {
            u64::MAX
        } else {
            ms as u64
        }
    }

    /// The data under `key` if its record is live at `now`. A record that
    /// has expired by `now` is dropped.
    pub fn get_at(&mut self, key: &str, now: u64) -> (r: Option<Data>)
        requires
            old(self).wf(),
        ensures
            final(self).wf(),
            final(self).expiries() == (if old(self).live_at(key@, now as int) {
                old(self).expiries()
            } else {
                old(self).expiries().remove(key@)
            }),
            old(self).live_at(key@, now as int) ==> r is Some && r->Some_0@
                == old(self).records()[key@] && final(self).records() == old(self).records(),
            !old(self).live_at(key@, now as int) ==> r is None && final(self).records() == old(
                self,
            ).records().remove(key@),
    {
        if let Some(rec) = self.records.get(key) {
            if now as u128 <= rec.expires_at {
                return Some(rec.data.snapshot());
            }
        }
        // absent, or expired: drop whatever is there
        let _ = self.records.remove(key);
        assert(self.records() =~= old(self).records().remove(key@));
        assert(self.expiries() =~= old(self).expiries().remove(key@));
        None
    }

    /// Stores `data` under `key` at `now`, to expire `ttl_secs` seconds
    /// later, replacing any record there.
    pub fn set_at(&mut self, key: &str, data: Data, ttl_secs: u64, now: u64)
        requires
            old(self).wf(),
        ensures
            final(self).wf(),
            final(self).records() == old(self).records().insert(key@, data@),
            final(self).expiries() == old(self).expiries().insert(
                key@,
                expiry(now as int, ttl_secs as int),
            ),
    {
        let expires_at: u128 = now as u128 + ttl_secs as u128 * 1000;
        let ghost d = data@;
        let _ = self.records.insert(key.to_owned(), Record { expires_at, data });
        assert(self.records() =~= old(self).records().insert(key@, d));
        assert(self.expiries() =~= old(self).expiries().insert(
            key@,
            expiry(now as int, ttl_secs as int),
        ));
    }
}

impl Storage for MemoryStorage {
    closed spec fn records(&self) -> Map<Seq<char>, Map<Seq<char>, Value>> {
        self.records@.map_values(|r: Record| r.data@)
    }

    open spec fn never_fails(&self) -> bool {
        true
    }

    closed spec fn wf(&self) -> bool {
        self.records.wf()
    }

    fn get(&mut self, key: &str) -> (r: Result<Option<Data>, SessionError>)
        ensures
            r is Ok,
    {
        let now = self.now_millis();
        Ok(self.get_at(key, now))
    }

    /// The record expires `ttl_secs` seconds after the clock reading taken
    /// here.
    fn set(&mut self, key: &str, data: Data, ttl_secs: u64) -> (r: Result<(), SessionError>)
        ensures
            r is Ok,
            exists|now: int|
                0 <= now && final(self).expiries() == old(self).expiries().insert(
                    key@,
                    expiry(now, ttl_secs as int),
                ),
    {
        let now = self.now_millis();
        self.set_at(key, data, ttl_secs, now);
        Ok(())
    }

    fn remove(&mut self, key: &str) -> (r: Result<(), SessionError>)
        ensures
            r is Ok,
    {
        let _ = self.records.remove(key);
        assert(self.records() =~= old(self).records().remove(key@));
        Ok(())
    }

    fn reset(&mut self) -> (r: Result<(), SessionError>)
        ensures
            r is Ok,
    {
        self.records.clear();
        assert(self.records() =~= Map::<Seq<char>, Map<Seq<char>, Value>>::empty());
        Ok(())
    }
}

} // verus!
