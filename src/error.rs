//! The errors of the library.
use vstd::prelude::*;

verus! {

/// What can go wrong in a session operation.
#[derive(Debug)]
pub enum SessionError {
    /// A backend could not complete an operation; the text says why.
    Storage(String),
    /// A value could not be encoded or decoded.
    Serialization(serde_json::Error),
    /// A lock guarding shared session state could not be taken.
    Concurrency(String),
    /// The id generator gave back the session's current id on every draw,
    /// so the session could not be renewed.
    RepeatedId,
}

impl SessionError {
    /// Whether this is a backend failure.
    pub fn is_storage(&self) -> (r: bool)
        ensures
            r == (self is Storage),
    {
        matches!(self, SessionError::Storage(_))
    }

    /// Whether this is an encoding or decoding failure.
    pub fn is_serialization(&self) -> (r: bool)
        ensures
            r == (self is Serialization),
    {
        matches!(self, SessionError::Serialization(_))
    }
}

} // verus!
