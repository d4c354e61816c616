//! Server-side sessions: a keyed data map, a session lifecycle state machine,
//! a storage port with an in-memory backend that expires records lazily, and
//! the store that loads sessions from a backend.
use vstd::prelude::*;

pub mod backends;
pub mod codec;
pub mod data;
pub mod error;
pub mod json;
mod keymap;
pub mod laws;
pub mod memory;
pub mod options;
pub mod session;
pub mod sid;
pub mod storage;
pub mod store;

pub use backends::{FilesystemStore, RedisStorage, RedisStore};
pub use codec::{decode_data, encode_data, load_session};
pub use data::Data;
pub use error::SessionError;
pub use memory::MemoryStorage;
pub use options::{CookieOptions, Options};
pub use session::{Session, SessionStatus, CHANGED, PURGED, RENEWED, UNCHANGED};
pub use sid::{generate_sid, verify_sid};
pub use storage::Storage;
pub use store::{session_from, Store};

verus! {

} // verus!
