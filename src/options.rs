//! Configuration: the session cookie's options, and the options of a store.
use vstd::prelude::*;

verus! {

#[verifier::external_type_specification]
#[verifier::external_body]
pub struct ExSameSite(cookie::SameSite);

/// Seconds in a day.
pub const DAY_SECS: u64 = 86400;

/// Seconds in two weeks.
pub const TWO_WEEKS_SECS: usize = 1209600;

/// The options of the cookie that carries the session id.
#[derive(Debug)]
pub struct CookieOptions {
    /// The cookie's name, `viz.sid` by default.
    pub name: String,
    /// The cookie's path, `/` by default.
    pub path: String,
    /// The cookie's lifetime in seconds, one day by default.
    pub max_age: u64,
    pub secure: Option<bool>,
    pub domain: Option<String>,
    pub http_only: Option<bool>,
    pub same_site: Option<cookie::SameSite>,
}

impl CookieOptions {
    /// The default options: name `viz.sid`, path `/`, a lifetime of one day,
    /// nothing else set.
    pub fn new() -> (r: Self)
        ensures
            r.name@ == "viz.sid"@,
            r.path@ == "/"@,
            r.max_age == DAY_SECS,
            r.secure is None,
            r.domain is None,
            r.http_only is None,
            r.same_site is None,
    {
        CookieOptions {
            domain: None,
            secure: None,
            http_only: None,
            same_site: None,
            path: "/".to_owned(),
            name: "viz.sid".to_owned(),
            max_age: DAY_SECS,
        }
    }

    /// These options with the name `name`.
    pub fn with_name(self, name: String) -> (r: Self)
        ensures
            r == (CookieOptions { name, ..self }),
    {
        CookieOptions { name, ..self }
    }

    /// These options with a lifetime of `max_age` seconds.
    pub fn with_max_age(self, max_age: u64) -> (r: Self)
        ensures
            r == (CookieOptions { max_age, ..self }),
    {
        CookieOptions { max_age, ..self }
    }

    /// These options with the domain `domain`.
    pub fn with_domain(self, domain: String) -> (r: Self)
        ensures
            r == (CookieOptions { domain: Some(domain), ..self }),
    {
        CookieOptions { domain: Some(domain), ..self }
    }

    /// These options with the path `path`.
    pub fn with_path(self, path: String) -> (r: Self)
        ensures
            r == (CookieOptions { path, ..self }),
    {
        CookieOptions { path, ..self }
    }

    /// These options with `secure` set.
    pub fn with_secure(self, secure: bool) -> (r: Self)
        ensures
            r == (CookieOptions { secure: Some(secure), ..self }),
    {
        CookieOptions { secure: Some(secure), ..self }
    }

    /// These options with `http_only` set.
    pub fn with_http_only(self, http_only: bool) -> (r: Self)
        ensures
            r == (CookieOptions { http_only: Some(http_only), ..self }),
    {
        CookieOptions { http_only: Some(http_only), ..self }
    }

    /// These options with `same_site` set.
    pub fn with_same_site(self, same_site: cookie::SameSite) -> (r: Self)
        ensures
            r == (CookieOptions { same_site: Some(same_site), ..self }),
    {
        CookieOptions { same_site: Some(same_site), ..self }
    }
}

impl Default for CookieOptions {
    fn default() -> (r: Self)
        ensures
            r.name@ == "viz.sid"@,
            r.path@ == "/"@,
            r.max_age == DAY_SECS,
            r.secure is None,
            r.domain is None,
            r.http_only is None,
            r.same_site is None,
    {
        CookieOptions::new()
    }
}

/// The options of a store and of its cookie.
#[derive(Clone, Debug)]
pub struct Options {
    /// The prefix of the keys in the store.
    pub prefix: String,
    /// The cookie's name.
    pub name: String,
    pub path: String,
    pub domain: String,
    /// The lifetime of a session, in seconds.
    pub max_age: usize,
    pub secure: bool,
    pub http_only: bool,
}

impl Default for Options {
    /// No prefix, cookie `session.id` on path `/` for any domain, a lifetime
    /// of two weeks, secure and HTTP only.
    fn default() -> (r: Self)
        ensures
            r.prefix@ == ""@,
            r.name@ == "session.id"@,
            r.path@ == "/"@,
            r.domain@ == ""@,
            r.max_age == TWO_WEEKS_SECS,
            r.secure,
            r.http_only,
    {
        Options {
            prefix: "".to_owned(),
            name: "session.id".to_owned(),
            path: "/".to_owned(),
            domain: "".to_owned(),
            max_age: TWO_WEEKS_SECS,
            secure: true,
            http_only: true,
        }
    }
}

} // verus!
