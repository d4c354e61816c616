//! The storage port: what a backend that keeps sessions must provide.
use vstd::prelude::*;

use serde_json::Value;

use crate::data::Data;
use crate::error::SessionError;

verus! {

/// A backend that keeps session data by id, each record with an expiry.
///
/// `records` is what the backend holds, expired or not. An expired record is
/// never handed out: `get` reports it absent and drops it.
pub trait Storage {
    /// The records held, by id.
    spec fn records(&self) -> Map<Seq<char>, Map<Seq<char>, Value>>;

    /// The backend's own invariant.
    spec fn wf(&self) -> bool;

    /// Whether every operation of this backend succeeds (as one that keeps
    /// its records in process memory does).
    spec fn never_fails(&self) -> bool;

    /// The data stored under `key`, unless absent or expired; an expired
    /// record is dropped.
    fn get(&mut self, key: &str) -> (r: Result<Option<Data>, SessionError>)
        requires
            old(self).wf(),
        ensures
            final(self).wf(),
            match r {
                Ok(Some(d)) => old(self).records().contains_key(key@) && d@ == old(
                    self,
                ).records()[key@] && final(self).records() == old(self).records(),
                Ok(None) => final(self).records() == old(self).records().remove(key@),
                Err(_) => final(self).records() == old(self).records(),
            },
            old(self).never_fails() ==> r is Ok,
            final(self).never_fails() == old(self).never_fails(),
    ;

    /// Stores `data` under `key`, replacing any record there, to expire
    /// `ttl_secs` seconds from now.
    fn set(&mut self, key: &str, data: Data, ttl_secs: u64) -> (r: Result<(), SessionError>)
        requires
            old(self).wf(),
        ensures
            final(self).wf(),
            r is Ok ==> final(self).records() == old(self).records().insert(key@, data@),
            old(self).never_fails() ==> r is Ok,
            final(self).never_fails() == old(self).never_fails(),
    ;

    /// Deletes the record under `key`; a missing record is no error.
    fn remove(&mut self, key: &str) -> (r: Result<(), SessionError>)
        requires
            old(self).wf(),
        ensures
            final(self).wf(),
            r is Ok ==> final(self).records() == old(self).records().remove(key@),
            old(self).never_fails() ==> r is Ok,
            final(self).never_fails() == old(self).never_fails(),
    ;

    /// Deletes every record.
    fn reset(&mut self) -> (r: Result<(), SessionError>)
        requires
            old(self).wf(),
        ensures
            final(self).wf(),
            r is Ok ==> final(self).records() == Map::<Seq<char>, Map<Seq<char>, Value>>::empty(),
            old(self).never_fails() ==> r is Ok,
            final(self).never_fails() == old(self).never_fails(),
    ;

    /// Releases what the backend holds open; records are kept. A backend
    /// with nothing to release keeps this default, which succeeds and does
    /// nothing, however often it is called.
    fn close(&mut self) -> (r: Result<(), SessionError>)
        requires
            old(self).wf(),
        ensures
            final(self).wf(),
            final(self).records() == old(self).records(),
            old(self).never_fails() ==> r is Ok,
            final(self).never_fails() == old(self).never_fails(),
    {
        Ok(())
    }
}

} // verus!
