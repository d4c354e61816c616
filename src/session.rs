//! A session: an id, a lifecycle status, and a data map, with the rules for
//! how each operation moves the status.
use vstd::prelude::*;

use serde_json::Value;

use crate::data::Data;
use crate::error::SessionError;
use crate::json::{decode_value, encode_value};
use crate::storage::Storage;
use crate::store::{generated_by, Store};

verus! {

/// Where a session stands in its lifecycle.
#[derive(Clone, Copy, Debug, PartialEq, Eq, Structural)]
pub enum SessionStatus {
    /// Nothing has changed since the session was created or loaded.
    Unchanged,
    /// At least one mutating operation has been applied.
    Changed,
    /// The session's id has been rotated.
    Renewed,
    /// The session has been purged or destroyed; it takes no more changes.
    Purged,
}

/// The status of a session that nothing has changed.
pub const UNCHANGED: SessionStatus = SessionStatus::Unchanged;

/// The status of a session that has been changed.
pub const CHANGED: SessionStatus = SessionStatus::Changed;

/// The status of a session whose id has been rotated.
pub const RENEWED: SessionStatus = SessionStatus::Renewed;

/// The status of a purged or destroyed session.
pub const PURGED: SessionStatus = SessionStatus::Purged;

/// What a session is, in mathematical terms.
pub struct SessionView {
    /// The id; empty until one is assigned.
    pub id: Seq<char>,
    pub status: SessionStatus,
    pub data: Map<Seq<char>, Value>,
    /// Whether the data has changed since it was last persisted.
    pub dirty: bool,
}

impl SessionView {
    /// A purged session holds no data.
    pub open spec fn wf(self) -> bool {
        self.status == SessionStatus::Purged ==> self.data == Map::<Seq<char>, Value>::empty()
    }

    /// The status after a mutating operation: an unchanged session becomes
    /// changed, any other keeps its status.
    pub open spec fn touched(self) -> SessionStatus {
        if self.status == SessionStatus::Unchanged {
            SessionStatus::Changed
        } else {
            self.status
        }
    }

    /// The session after `set(k, v)`.
    pub open spec fn after_set(self, k: Seq<char>, v: Value) -> SessionView {
        if self.status == SessionStatus::Purged {
            self
        } else {
            SessionView { data: self.data.insert(k, v), status: self.touched(), dirty: true, ..self }
        }
    }

    /// The session after `remove(k)`.
    pub open spec fn after_remove(self, k: Seq<char>) -> SessionView {
        if self.status == SessionStatus::Purged {
            self
        } else {
            SessionView { data: self.data.remove(k), status: self.touched(), dirty: true, ..self }
        }
    }

    /// The session after `clear()`.
    pub open spec fn after_clear(self) -> SessionView {
        if self.status == SessionStatus::Purged {
            self
        } else {
            SessionView { data: Map::empty(), status: self.touched(), dirty: true, ..self }
        }
    }

    /// The session after `purge()`.
    pub open spec fn after_purge(self) -> SessionView {
        if self.status == SessionStatus::Purged {
            self
        } else {
            SessionView { data: Map::empty(), status: SessionStatus::Purged, dirty: false, ..self }
        }
    }

    /// What `get(k)` sees.
    pub open spec fn lookup(self, k: Seq<char>) -> Option<Value> {
        if self.data.contains_key(k) {
            Some(self.data[k])
        } else {
            None
        }
    }

    /// Whether `save` writes to the backend: the data changed since it was
    /// last persisted, and the session is not purged.
    pub open spec fn needs_save(self) -> bool {
        self.dirty && self.status != SessionStatus::Purged
    }

    /// The session once its data is persisted under `id`.
    pub open spec fn after_save(self, id: Seq<char>) -> SessionView {
        SessionView { id, dirty: false, ..self }
    }

    /// The session once rotated to `id`: renewed, its data cleared. `dirty`
    /// tells whether the empty record under the new id is still to be
    /// written.
    pub open spec fn after_renew(self, id: Seq<char>, dirty: bool) -> SessionView {
        SessionView { id, status: SessionStatus::Renewed, data: Map::empty(), dirty }
    }

    /// The session once destroyed: purged, its data cleared, its id kept.
    pub open spec fn after_destroy(self) -> SessionView {
        SessionView { status: SessionStatus::Purged, data: Map::empty(), dirty: false, ..self }
    }

    /// Whether `renew` rotates the id: it does so once, and never on a purged
    /// session.
    pub open spec fn can_renew(self) -> bool {
        self.status != SessionStatus::Purged && self.status != SessionStatus::Renewed
    }
}

/// The backend's records after a renew from `old_id` to `new_id`: the record
/// under the old id (if there was an id) gone, an empty one under the new id.
pub open spec fn renewed_records(
    records: Map<Seq<char>, Map<Seq<char>, Value>>,
    old_id: Seq<char>,
    new_id: Seq<char>,
) -> Map<Seq<char>, Map<Seq<char>, Value>> {
    (if old_id.len() > 0 {
        records.remove(old_id)
    } else {
        records
    }).insert(new_id, Map::empty())
}

/// How many times `renew` draws from the generator for an id that differs
/// from the current one.
pub const ID_DRAWS: usize = 4;

/// An id from `generate` that differs from `current` when `current` is not
/// empty, within `ID_DRAWS` draws; nothing if every draw gave `current` back.
fn draw_id<G: Fn() -> String>(generate: &G, current: &String) -> (r: Option<String>)
    requires
        generate.requires(()),
    ensures
        r matches Some(id) ==> generated_by(*generate, id@) && (current@.len() > 0 ==> id@ != current@),
        current@.len() == 0 ==> r is Some,
{
    let mut n: usize = 0;
    while n < ID_DRAWS
        invariant
            generate.requires(()),
            n <= ID_DRAWS,
            current@.len() == 0 ==> n == 0,
        decreases ID_DRAWS - n,
    {
        let id = generate();
        if current.as_str().is_empty() || !(id == *current) {
            return Some(id);
        }
        n = n + 1;
    }
    None
}

/// A session: an id, a status, and a data map.
#[derive(Debug)]
pub struct Session {
    id: String,
    status: SessionStatus,
    data: Data,
    dirty: bool,
}

impl View for Session {
    type V = SessionView;

    closed spec fn view(&self) -> SessionView {
        SessionView { id: self.id@, status: self.status, data: self.data@, dirty: self.dirty }
    }
}

impl Session {
    /// The data map is well formed, and a purged session holds no data.
    pub closed spec fn wf(&self) -> bool {
        self@.wf()
    }

    /// A fresh session holding `data`, with no id yet.
    pub fn new(data: Data) -> (r: Session)
        ensures
            r.wf(),
            r@ == (SessionView {
                id: Seq::empty(),
                status: SessionStatus::Unchanged,
                data: data@,
                dirty: false,
            }),
    {
        Session { id: String::new(), status: SessionStatus::Unchanged, data, dirty: false }
    }

    /// A session loaded from a backend under `id`, holding `data`.
    pub fn load(id: String, data: Data) -> (r: Session)
        ensures
            r.wf(),
            r@ == (SessionView { id: id@, status: SessionStatus::Unchanged, data: data@, dirty: false }),
    {
        Session { id, status: SessionStatus::Unchanged, data, dirty: false }
    }

    /// The session's id; empty until one is assigned.
    pub fn id(&self) -> (r: String)
        ensures
            r@ == self@.id,
    {
        self.id.clone()
    }

    /// The session's status.
    pub fn status(&self) -> (r: SessionStatus)
        ensures
            r == self@.status,
    {
        self.status
    }

    /// Whether the data changed since it was last persisted, so that `save`
    /// would write it.
    pub fn needs_save(&self) -> (r: bool)
        ensures
            r == self@.needs_save(),
    {
        self.dirty && self.status != SessionStatus::Purged
    }

    /// The value stored under `key`.
    pub fn get_value(&self, key: &str) -> (r: Option<Value>)
        ensures
            r == self@.lookup(key@),
    {
        match self.data.get(key) {
            Some(v) => Some(v.clone()),
            None => None,
        }
    }

    /// The value stored under `key`, decoded as a `T`; absent when there is
    /// no such key or the value does not decode.
    pub fn get<T: serde::de::DeserializeOwned>(&self, key: &str) -> (r: Option<T>)
        ensures
            self@.lookup(key@) is None ==> r is None,
    {
        match self.get_value(key) {
            Some(v) => decode_value(v),
            None => None,
        }
    }

    /// Stores `value` under `key` and returns the value that was there. On a
    /// purged session nothing changes and nothing is returned.
    pub fn set_value(&mut self, key: &str, value: Value) -> (r: Option<Value>)
        requires
            old(self).wf(),
        ensures
            final(self).wf(),
            final(self)@ == old(self)@.after_set(key@, value),
            r == (if old(self)@.status == SessionStatus::Purged {
                None
            } else {
                old(self)@.lookup(key@)
            }),
    {
        if self.status == SessionStatus::Purged {
            return None;
        }
        if self.status == SessionStatus::Unchanged {
            self.status = SessionStatus::Changed;
        }
        self.dirty = true;
        self.data.insert(key.to_owned(), value)
    }

    /// Encodes `value` and stores it under `key`, returning the previous value
    /// decoded as a `T`. An encoding failure is returned and changes nothing;
    /// on a purged session nothing changes.
    pub fn set<T: serde::Serialize + serde::de::DeserializeOwned>(&mut self, key: &str, value: T) -> (r:
        Result<Option<T>, SessionError>)
        requires
            old(self).wf(),
        ensures
            final(self).wf(),
            old(self)@.status == SessionStatus::Purged ==> r is Ok && r->Ok_0 is None && final(self)@
                == old(self)@,
            r is Err ==> final(self)@ == old(self)@ && r->Err_0 is Serialization && old(self)@.status
                != SessionStatus::Purged,
            r is Ok && old(self)@.status != SessionStatus::Purged ==> exists|v: Value| final(self)@
                == old(self)@.after_set(key@, v),
            r is Ok && (old(self)@.status == SessionStatus::Purged || old(self)@.lookup(key@) is None)
                ==> r->Ok_0 is None,
    {
        if self.status == SessionStatus::Purged {
            return Ok(None);
        }
        match encode_value(value) {
            Ok(v) => match self.set_value(key, v) {
                Some(prev) => Ok(decode_value(prev)),
                None => Ok(None),
            },
            Err(e) => Err(SessionError::Serialization(e)),
        }
    }

    /// Removes `key` and returns its value. On a purged session nothing
    /// changes and nothing is returned.
    pub fn remove(&mut self, key: &str) -> (r: Option<Value>)
        requires
            old(self).wf(),
        ensures
            final(self).wf(),
            final(self)@ == old(self)@.after_remove(key@),
            r == (if old(self)@.status == SessionStatus::Purged {
                None
            } else {
                old(self)@.lookup(key@)
            }),
    {
        if self.status == SessionStatus::Purged {
            return None;
        }
        if self.status == SessionStatus::Unchanged {
            self.status = SessionStatus::Changed;
        }
        self.dirty = true;
        self.data.remove(key)
    }

    /// Removes `key` and returns its value decoded as a `T`; absent when
    /// there was none or it does not decode.
    pub fn remove_as<T: serde::de::DeserializeOwned>(&mut self, key: &str) -> (r: Option<T>)
        requires
            old(self).wf(),
        ensures
            final(self).wf(),
            final(self)@ == old(self)@.after_remove(key@),
            old(self)@.status == SessionStatus::Purged || old(self)@.lookup(key@) is None ==> r is None,
    {
        match self.remove(key) {
            Some(v) => decode_value(v),
            None => None,
        }
    }

    /// Removes every entry. On a purged session nothing changes.
    pub fn clear(&mut self)
        requires
            old(self).wf(),
        ensures
            final(self).wf(),
            final(self)@ == old(self)@.after_clear(),
    {
        if self.status == SessionStatus::Purged {
            return;
        }
        if self.status == SessionStatus::Unchanged {
            self.status = SessionStatus::Changed;
        }
        self.dirty = true;
        self.data.clear();
    }

    /// Clears the data and marks the session purged, after which it takes no
    /// more changes. The backend is not touched.
    pub fn purge(&mut self)
        requires
            old(self).wf(),
        ensures
            final(self).wf(),
            final(self)@ == old(self)@.after_purge(),
    {
        if self.status == SessionStatus::Purged {
            return;
        }
        self.status = SessionStatus::Purged;
        self.dirty = false;
        self.data.clear();
    }

    /// The first step of a save: when the data changed since it was last
    /// persisted and the session is not purged, returns the id and a copy of
    /// the data to write, first taking a new id from `generate` if the
    /// session has none. Otherwise returns nothing and changes nothing. Once
    /// the write has succeeded, `finish_save` records it.
    pub fn begin_save<G: Fn() -> String>(&mut self, generate: &G) -> (r: Option<(String, Data)>)
        requires
            old(self).wf(),
            generate.requires(()),
        ensures
            final(self).wf(),
            !old(self)@.needs_save() ==> r is None && final(self)@ == old(self)@,
            old(self)@.needs_save() ==> {
                &&& final(self)@ == (SessionView { id: final(self)@.id, ..old(self)@ })
                &&& old(self)@.id.len() > 0 ==> final(self)@.id == old(self)@.id
                &&& old(self)@.id.len() == 0 ==> generated_by(*generate, final(self)@.id)
                &&& r is Some && r->Some_0.0@ == final(self)@.id && r->Some_0.1@
                    == old(self)@.data
            },
    {
        if !self.needs_save() {
            return None;
        }
        if self.id.as_str().is_empty() {
            self.id = generate();
        }
        Some((self.id.clone(), self.data.snapshot()))
    }

    /// The last step of a save: the data is persisted.
    pub fn finish_save(&mut self)
        requires
            old(self).wf(),
        ensures
            final(self).wf(),
            final(self)@ == old(self)@.after_save(old(self)@.id),
    {
        self.dirty = false;
    }

    /// Marks the session destroyed: purged, its data cleared, its id kept.
    pub fn mark_destroyed(&mut self)
        requires
            old(self).wf(),
        ensures
            final(self).wf(),
            final(self)@ == old(self)@.after_destroy(),
    {
        self.status = SessionStatus::Purged;
        self.data.clear();
        self.dirty = false;
    }

    /// Persists the data under the session's id if it changed since it was
    /// last persisted, first taking a new id from the store's generator if
    /// the session has none. A session with nothing to persist, or a purged
    /// one, leaves the backend alone. A backend failure is returned and
    /// leaves the data in place, still to be persisted.
    pub fn save<S: Storage, G: Fn() -> String, V: Fn(&str) -> bool>(
        &mut self,
        store: &mut Store<S, G, V>,
        ttl_secs: u64,
    ) -> (r: Result<(), SessionError>)
        requires
            old(self).wf(),
            old(store).storage.wf(),
            old(store).generate.requires(()),
        ensures
            final(self).wf(),
            final(store).storage.wf(),
            final(store).generate == old(store).generate,
            final(store).verify == old(store).verify,
            !old(self)@.needs_save() ==> r is Ok && final(self)@ == old(self)@ && final(store).storage
                == old(store).storage,
            old(self)@.needs_save() ==> {
                &&& old(self)@.id.len() > 0 ==> final(self)@.id == old(self)@.id
                &&& old(self)@.id.len() == 0 ==> generated_by(old(store).generate, final(self)@.id)
                &&& r is Ok ==> final(self)@ == old(self)@.after_save(final(self)@.id)
                    && final(store).storage.records() == old(store).storage.records().insert(
                    final(self)@.id,
                    old(self)@.data,
                )
                &&& r is Err ==> final(self)@ == (SessionView { id: final(self)@.id, ..old(self)@ })
            },
            old(store).storage.never_fails() ==> r is Ok,
            final(store).storage.never_fails() == old(store).storage.never_fails(),
    {
        match self.begin_save(&store.generate) {
            Some((id, data)) => {
                store.storage.set(id.as_str(), data, ttl_secs)?;
                self.finish_save();
                Ok(())
            },
            None => Ok(()),
        }
    }

    /// Rotates the session's id: takes from the store's generator an id that
    /// differs from the current one (when there is one), deletes the record
    /// under the old id (if there was an id), clears the data, and persists
    /// the empty record under the new id. Only the first renew does this, and
    /// never on a purged session; otherwise nothing happens.
    ///
    /// If the generator gives back the current id on each of `ID_DRAWS`
    /// draws, or deleting the old record fails, the error is returned and
    /// nothing changes. If persisting under the new id fails, the error is
    /// returned and the session stands renewed under the new id with its
    /// empty record still to be persisted.
    pub fn renew<S: Storage, G: Fn() -> String, V: Fn(&str) -> bool>(
        &mut self,
        store: &mut Store<S, G, V>,
        ttl_secs: u64,
    ) -> (r: Result<(), SessionError>)
        requires
            old(self).wf(),
            old(store).storage.wf(),
            old(store).generate.requires(()),
        ensures
            final(self).wf(),
            final(store).storage.wf(),
            final(store).generate == old(store).generate,
            final(store).verify == old(store).verify,
            final(store).storage.never_fails() == old(store).storage.never_fails(),
            !old(self)@.can_renew() ==> r is Ok && final(self)@ == old(self)@ && final(store).storage
                == old(store).storage,
            old(self)@.can_renew() && r is Ok ==> {
                &&& generated_by(old(store).generate, final(self)@.id)
                &&& old(self)@.id.len() > 0 ==> final(self)@.id != old(self)@.id
                &&& final(self)@ == old(self)@.after_renew(final(self)@.id, false)
                &&& final(store).storage.records() == renewed_records(
                    old(store).storage.records(),
                    old(self)@.id,
                    final(self)@.id,
                )
            },
            old(self)@.can_renew() && r is Err ==> final(self)@ == old(self)@ || {
                &&& generated_by(old(store).generate, final(self)@.id)
                &&& old(self)@.id.len() > 0 ==> final(self)@.id != old(self)@.id
                &&& final(self)@ == old(self)@.after_renew(final(self)@.id, true)
            },
            // with no old id there is nothing to delete: only the write can fail
            old(self)@.can_renew() && old(self)@.id.len() == 0 && r is Err ==> generated_by(
                old(store).generate,
                final(self)@.id,
            ) && final(self)@ == old(self)@.after_renew(final(self)@.id, true),
            old(self)@.can_renew() && old(self)@.id.len() == 0 && old(store).storage.never_fails()
                ==> r is Ok,
            old(self)@.can_renew() && old(store).storage.never_fails() && r is Err ==> r->Err_0 is RepeatedId
                && final(self)@ == old(self)@ && final(store).storage == old(store).storage,
    {
        if self.status == SessionStatus::Purged || self.status == SessionStatus::Renewed {
            return Ok(());
        }
        let new_id = match draw_id(&store.generate, &self.id) {
            Some(id) => id,
            None => return Err(SessionError::RepeatedId),
        };
        if !self.id.as_str().is_empty() {
            store.storage.remove(self.id.as_str())?;
        }
        self.id = new_id;
        self.status = SessionStatus::Renewed;
        self.data.clear();
        self.dirty = true;
        store.storage.set(self.id.as_str(), Data::new(), ttl_secs)?;
        self.dirty = false;
        Ok(())
    }

    /// Deletes the session's record (if it has an id) and marks the session
    /// purged, its data cleared. A backend failure is returned and changes
    /// nothing.
    pub fn destroy<S: Storage, G, V>(&mut self, store: &mut Store<S, G, V>) -> (r: Result<
        (),
        SessionError,
    >)
        requires
            old(self).wf(),
            old(store).storage.wf(),
        ensures
            final(self).wf(),
            final(store).storage.wf(),
            final(store).generate == old(store).generate,
            final(store).verify == old(store).verify,
            r is Ok ==> final(self)@ == old(self)@.after_destroy(),
            r is Ok && old(self)@.id.len() > 0 ==> final(store).storage.records() == old(
                store,
            ).storage.records().remove(old(self)@.id),
            old(self)@.id.len() == 0 ==> r is Ok && final(store).storage == old(store).storage,
            r is Err ==> final(self)@ == old(self)@,
            old(store).storage.never_fails() ==> r is Ok,
            final(store).storage.never_fails() == old(store).storage.never_fails(),
    {
        if !self.id.as_str().is_empty() {
            store.storage.remove(self.id.as_str())?;
        }
        self.mark_destroyed();
        Ok(())
    }

    /// A copy of the data map.
    pub fn data(&self) -> (r: Data)
        ensures
            r@ == self@.data,
    {
        self.data.snapshot()
    }
}

} // verus!
