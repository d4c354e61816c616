//! The handles of the backends whose I/O runs outside the library: a
//! directory of files, and redis. What they decide is here; the reads and
//! writes are done by their callers.
use vstd::prelude::*;

verus! {

#[verifier::external_type_specification]
#[verifier::external_body]
pub struct ExPathBuf(std::path::PathBuf);

/// Sessions kept as files in a directory, one per id, each holding the
/// session's data as a JSON object.
#[derive(Debug)]
pub struct FilesystemStore {
    path: std::path::PathBuf,
}

impl FilesystemStore {
    /// The directory.
    pub closed spec fn dir(&self) -> std::path::PathBuf {
        self.path
    }

    /// A store over the directory `path`.
    pub fn new(path: std::path::PathBuf) -> (r: Self)
        ensures
            r.dir() == path,
    {
        FilesystemStore { path }
    }

    /// The directory.
    pub fn path(&self) -> (r: &std::path::PathBuf)
        ensures
            *r == self.dir(),
    {
        &self.path
    }
}

/// Sessions kept in redis through the client `T`, under their ids.
#[derive(Debug)]
pub struct RedisStorage<T> {
    inner: T,
}

impl<T> RedisStorage<T> {
    /// The client.
    pub closed spec fn client(&self) -> T {
        self.inner
    }

    /// A backend over `client`.
    pub fn new(client: T) -> (r: Self)
        ensures
            r.client() == client,
    {
        RedisStorage { inner: client }
    }

    /// The client.
    pub fn get_ref(&self) -> (r: &T)
        ensures
            *r == self.client(),
    {
        &self.inner
    }
}

/// Sessions kept in redis through the client `C`, each under a prefix
/// followed by its id, living `max_age` seconds (for ever when it is 0).
#[derive(Debug)]
pub struct RedisStore<C> {
    prefix: String,
    max_age: usize,
    client: C,
}

impl<C> RedisStore<C> {
    /// The prefix of the keys.
    pub closed spec fn key_prefix(&self) -> Seq<char> {
        self.prefix@
    }

    /// The lifetime of a record, in seconds; 0 for no expiry.
    pub closed spec fn lifetime(&self) -> nat {
        self.max_age as nat
    }

    /// The client.
    pub closed spec fn connection(&self) -> C {
        self.client
    }

    /// A store over `client`, keys starting with `prefix`, records living
    /// `max_age` seconds.
    pub fn new(client: C, prefix: &str, max_age: usize) -> (r: Self)
        ensures
            r.connection() == client,
            r.key_prefix() == prefix@,
            r.lifetime() == max_age,
    {
        RedisStore { prefix: prefix.to_owned(), max_age, client }
    }

    /// The prefix of the keys.
    pub fn prefix(&self) -> (r: String)
        ensures
            r@ == self.key_prefix(),
    {
        self.prefix.clone()
    }

    /// The lifetime of a record, in seconds; 0 for no expiry.
    pub fn max_age(&self) -> (r: usize)
        ensures
            r == self.lifetime(),
    {
        self.max_age
    }

    /// The client.
    pub fn client(&self) -> (r: &C)
        ensures
            *r == self.connection(),
    {
        &self.client
    }

    /// The key under which the session `sid` is kept: the prefix, then the id.
    pub fn key(&self, sid: &str) -> (r: String)
        ensures
            r@ == self.key_prefix() + sid@,
    {
        self.prefix.clone().concat(sid)
    }

    /// The expiry to write a record with: its lifetime in seconds, or none
    /// when records do not expire.
    pub fn expiry(&self) -> (r: Option<usize>)
        ensures
            r == (if self.lifetime() > 0 {
                Some(self.lifetime() as usize)
            } else {
                None::<usize>
            }),
    {
        if self.max_age > 0 {
            Some(self.max_age)
        } else {
            None
        }
    }
}

} // verus!
