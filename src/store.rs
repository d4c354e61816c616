//! The store: a backend together with the functions that make and check
//! session ids, and the loading of sessions by id.
use vstd::prelude::*;

use serde_json::Value;

use crate::data::Data;
use crate::error::SessionError;
use crate::session::{Session, SessionStatus, SessionView};
use crate::storage::Storage;

verus! {

/// A backend, an id generator and an id verifier.
pub struct Store<S, G, V> {
    /// The backend.
    pub storage: S,
    /// Makes a new session id.
    pub generate: G,
    /// Tells whether a client-supplied id is well formed.
    pub verify: V,
}

/// Whether `id` is one that `generate` may return.
pub open spec fn generated_by<G: Fn() -> String>(generate: G, id: Seq<char>) -> bool {
    exists|s: String| generate.ensures((), s) && s@ == id
}

/// A session that no backend record stands behind: no id, no data.
pub open spec fn fresh_view() -> SessionView {
    SessionView {
        id: Seq::empty(),
        status: SessionStatus::Unchanged,
        data: Map::empty(),
        dirty: false,
    }
}

/// The session for `id` given what the backend found under it: the record's
/// data under `id`, or a fresh session.
pub open spec fn found_view(id: Seq<char>, found: Option<Map<Seq<char>, Value>>) -> SessionView {
    match found {
        Some(d) => SessionView { id, status: SessionStatus::Unchanged, data: d, dirty: false },
        None => fresh_view(),
    }
}

/// The session for `id` given what the backend found under it.
pub fn session_from(id: &str, found: Option<Data>) -> (r: Session)
    ensures
        r.wf(),
        r@ == found_view(
            id@,
            match found {
                Some(d) => Some(d@),
                None => None,
            },
        ),
{
    match found {
        Some(d) => Session::load(id.to_owned(), d),
        None => Session::new(Data::new()),
    }
}

impl<S, G, V> Store<S, G, V> {
    /// A store over `storage`, making ids with `generate` and checking them
    /// with `verify`.
    pub fn new(storage: S, generate: G, verify: V) -> (r: Self)
        ensures
            r.storage == storage,
            r.generate == generate,
            r.verify == verify,
    {
        Store { storage, generate, verify }
    }

    /// The backend.
    pub fn storage(&self) -> (r: &S)
        ensures
            *r == self.storage,
    {
        &self.storage
    }
}

impl<S: Storage, G: Fn() -> String, V: Fn(&str) -> bool> Store<S, G, V> {
    /// A new session id, from the generator.
    pub fn generate(&self) -> (r: String)
        requires
            self.generate.requires(()),
        ensures
            self.generate.ensures((), r),
    {
        (self.generate)()
    }

    /// Whether `id` passes the verifier.
    pub fn verify(&self, id: &str) -> (r: bool)
        requires
            self.verify.requires((id,)),
        ensures
            self.verify.ensures((id,), r),
    {
        (self.verify)(id)
    }

    /// The session that the client id `id` names. An id that the verifier
    /// rejects is not looked up; it, and an id with no live record, give a
    /// fresh session. A backend failure is returned.
    pub fn get(&mut self, id: &str) -> (r: Result<Session, SessionError>)
        requires
            old(self).storage.wf(),
            old(self).verify.requires((id,)),
        ensures
            final(self).storage.wf(),
            final(self).generate == old(self).generate,
            final(self).verify == old(self).verify,
            r is Ok ==> r->Ok_0.wf(),
            // rejected: nothing is looked up
            r is Ok && !final(self).verify.ensures((id,), true) ==> r->Ok_0@ == fresh_view()
                && final(self).storage == old(self).storage,
            // found: the record's data under the same id, the backend unchanged
            r is Ok && r->Ok_0@ != fresh_view() ==> old(self).verify.ensures((id,), true)
                && old(self).storage.records().contains_key(id@) && r->Ok_0@ == found_view(
                id@,
                Some(old(self).storage.records()[id@]),
            ) && final(self).storage.records() == old(self).storage.records(),
            // no record: a fresh session
            r is Ok && !old(self).storage.records().contains_key(id@) ==> r->Ok_0@ == fresh_view(),
            r is Ok ==> final(self).storage.records() == old(self).storage.records()
                || final(self).storage.records() == old(self).storage.records().remove(id@),
            r is Err ==> final(self).storage.records() == old(self).storage.records(),
            // only a lookup can fail, and only an accepted id is looked up
            r is Err ==> old(self).verify.ensures((id,), true),
            old(self).storage.never_fails() ==> r is Ok,
            final(self).storage.never_fails() == old(self).storage.never_fails(),
    {
        if !(self.verify)(id) {
            return Ok(Session::new(Data::new()));
        }
        let found = self.storage.get(id)?;
        Ok(session_from(id, found))
    }
}

} // verus!
