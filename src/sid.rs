//! Session ids: the default generator and the default well-formedness check.
use vstd::prelude::*;

verus! {

/// The characters that a session id may hold: ASCII letters and digits,
/// `_` and `-`.
pub open spec fn is_sid_char(c: char) -> bool {
    ('a' <= c && c <= 'z') || ('A' <= c && c <= 'Z') || ('0' <= c && c <= '9') || c == '_' || c == '-'
}

/// The length of a session id, in characters.
pub const SID_LEN: usize = 32;

/// A well-formed session id: 32 characters, each a letter, a digit, `_` or
/// `-`.
pub open spec fn is_valid_sid(s: Seq<char>) -> bool {
    &&& s.len() == SID_LEN
    &&& forall|i: int| 0 <= i < s.len() ==> #[trigger] is_sid_char(s[i])
}

/// Relies on `nanoid::format` with nanoid's default random source and its
/// URL-safe alphabet (`_`, `-`, digits, lower and upper case letters): it
/// returns exactly `size` characters, each drawn from that alphabet. With
/// `size` 0 it would never return.
#[verifier::external_body]
fn nanoid_sid(size: usize) -> (r: String)
    requires
        size > 0,
    ensures
        r@.len() == size,
        forall|i: int| 0 <= i < r@.len() ==> #[trigger] is_sid_char(r@[i]),
{
    nanoid::format(nanoid::rngs::default, &nanoid::alphabet::SAFE, size)
}

/// A new random session id. It is always well formed.
pub fn generate_sid() -> (r: String)
    ensures
        is_valid_sid(r@),
{
    nanoid_sid(SID_LEN)
}

/// Whether `c` may stand in a session id.
fn sid_char(c: char) -> (r: bool)
    ensures
        r == is_sid_char(c),
{
    ('a' <= c && c <= 'z') || ('A' <= c && c <= 'Z') || ('0' <= c && c <= '9') || c == '_' || c == '-'
}

/// Whether `sid` is a well-formed session id.
pub fn verify_sid(sid: &str) -> (r: bool)
    ensures
        r == is_valid_sid(sid@),
{
    if sid.unicode_len() != SID_LEN {
        return false;
    }
    let mut i: usize = 0;
    while i < SID_LEN
        invariant
            sid@.len() == SID_LEN,
            i <= SID_LEN,
            forall|j: int| 0 <= j < i ==> #[trigger] is_sid_char(sid@[j]),
        decreases SID_LEN - i,
    {
        if !sid_char(sid.get_char(i)) {
            return false;
        }
        i = i + 1;
    }
    true
}

} // verus!
