//! Session data as stored bytes: a JSON object, one member per key.
use vstd::prelude::*;

use serde_json::Value;

use crate::data::Data;
use crate::error::SessionError;
use crate::json::{json_object_bytes, json_object_map, parse_object, write_object};
use crate::session::Session;
use crate::sid::{is_valid_sid, verify_sid};
use crate::store::{found_view, fresh_view, session_from};

verus! {

/// The data map that the bytes `b` hold as a JSON object, if they hold one.
pub open spec fn decoded(b: Seq<u8>) -> Option<Map<Seq<char>, Value>> {
    json_object_map(b)
}

/// The bytes that store `d`: a JSON object. Encoding a data map always
/// succeeds.
pub fn encode_data(d: &Data) -> (r: Result<Vec<u8>, SessionError>)
    ensures
        r is Ok,
        r is Ok ==> r->Ok_0@ == json_object_bytes(d@),
{
    match write_object(d.as_map()) {
        Ok(b) => Ok(b),
        Err(e) => Err(SessionError::Serialization(e)),
    }
}

/// The data map that `raw` holds as a JSON object; nothing when it holds
/// none.
pub fn decode_data(raw: &[u8]) -> (r: Option<Data>)
    ensures
        match r {
            Some(d) => decoded(raw@) == Some(d@),
            None => decoded(raw@) is None,
        },
{
    match parse_object(raw) {
        Some(m) => Some(Data::from_map(m)),
        None => None,
    }
}

/// The session for the client id `sid` given the bytes stored under it, if
/// any were read. An ill-formed id, nothing read, fewer than two bytes (no
/// JSON object is that short) or bytes that hold no JSON object give a fresh
/// session; otherwise the session holds the stored data under `sid`.
pub fn load_session(sid: &str, raw: Option<&[u8]>) -> (r: Session)
    ensures
        r.wf(),
        r@ == (match raw {
            Some(b) => if is_valid_sid(sid@) && b@.len() >= 2 {
                found_view(sid@, decoded(b@))
            } else {
                fresh_view()
            },
            None => fresh_view(),
        }),
{
    if !verify_sid(sid) {
        return session_from(sid, None);
    }
    match raw {
        Some(b) => {
            if b.len() < 2 {
                session_from(sid, None)
            } else {
                session_from(sid, decode_data(b))
            }
        },
        None => session_from(sid, None),
    }
}

} // verus!
