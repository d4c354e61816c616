//! Properties that hold across operations of a session and of the in-memory
//! backend, stated over the transitions that the operations' contracts use.
use vstd::prelude::*;

use serde_json::Value;

use crate::memory::{expiry, MemoryStorage};
use crate::session::{renewed_records, SessionStatus, SessionView};
use crate::storage::Storage;

verus! {

/// A mutating operation on a session's data.
pub enum Mutation {
    Put(Seq<char>, Value),
    Remove(Seq<char>),
    Clear,
}

/// The session after one mutation.
pub open spec fn apply(s: SessionView, m: Mutation) -> SessionView {
    match m {
        Mutation::Put(k, v) => s.after_set(k, v),
        Mutation::Remove(k) => s.after_remove(k),
        Mutation::Clear => s.after_clear(),
    }
}

/// The session after the mutations, in order.
pub open spec fn apply_all(s: SessionView, ms: Seq<Mutation>) -> SessionView
    decreases ms.len(),
{
    if ms.len() == 0 {
        s
    } else {
        apply(apply_all(s, ms.drop_last()), ms.last())
    }
}

/// The value last written under `k` by the mutations, starting from `before`:
/// a set of `k` writes its value, a removal of `k` or a clear writes absence.
pub open spec fn last_written(before: Option<Value>, ms: Seq<Mutation>, k: Seq<char>) -> Option<Value>
    decreases ms.len(),
{
    if ms.len() == 0 {
        before
    } else {
        let prior = last_written(before, ms.drop_last(), k);
        match ms.last() {
            Mutation::Put(j, v) => if j == k {
                Some(v)
            } else {
                prior
            },
            Mutation::Remove(j) => if j == k {
                None
            } else {
                prior
            },
            Mutation::Clear => None,
        }
    }
}

/// On a session that is not purged, a read after any sequence of sets,
/// removals and clears sees the value last written under its key, or absence
/// if the key was last removed or cleared.
pub proof fn lemma_read_sees_last_write(s: SessionView, ms: Seq<Mutation>, k: Seq<char>)
    requires
        s.status != SessionStatus::Purged,
    ensures
        apply_all(s, ms).lookup(k) == last_written(s.lookup(k), ms, k),
        apply_all(s, ms).status != SessionStatus::Purged,
    decreases ms.len(),
{
    if ms.len() > 0 {
        lemma_read_sees_last_write(s, ms.drop_last(), k);
    }
}

/// Once a session is purged, sets, removals and clears change nothing: every
/// read gives what it gave right after the purge, which is absence.
pub proof fn lemma_purged_ignores_mutations(s: SessionView, ms: Seq<Mutation>)
    requires
        s.wf(),
    ensures
        apply_all(s.after_purge(), ms) == s.after_purge(),
        forall|k: Seq<char>| #[trigger] apply_all(s.after_purge(), ms).lookup(k) == s.after_purge().lookup(k),
        forall|k: Seq<char>| #[trigger] apply_all(s.after_purge(), ms).lookup(k) is None,
    decreases ms.len(),
{
    if ms.len() > 0 {
        lemma_purged_ignores_mutations(s, ms.drop_last());
    }
}

/// A set followed by a read of the same key gives the value set, and the set
/// returns absence when the key had no value.
pub proof fn lemma_set_then_get(s: SessionView, k: Seq<char>, v: Value)
    requires
        s.status != SessionStatus::Purged,
    ensures
        s.after_set(k, v).lookup(k) == Some(v),
        !s.data.contains_key(k) ==> s.lookup(k) is None,
{
}

/// A second renew does nothing: after the first the session stands renewed
/// under the new id, which the second keeps. The new id differs from an old
/// one (as `renew` ensures), so the backend holds no record under the old id.
pub proof fn lemma_renew_once(
    s: SessionView,
    new_id: Seq<char>,
    records: Map<Seq<char>, Map<Seq<char>, Value>>,
)
    requires
        s.can_renew(),
        s.id.len() > 0,
        new_id != s.id,
    ensures
        !s.after_renew(new_id, false).can_renew(),
        s.after_renew(new_id, false).id == new_id,
        !renewed_records(records, s.id, new_id).contains_key(s.id),
        renewed_records(records, s.id, new_id).contains_key(new_id),
{
}

/// A save that persisted the data leaves nothing to persist, so a second save
/// with no mutation in between does not write to the backend.
pub proof fn lemma_save_once(s: SessionView, id: Seq<char>)
    ensures
        !s.after_save(id).needs_save(),
{
}

/// A record stored at `now` with a lifetime of `ttl_secs` seconds is live up to
/// its expiry instant and never after: a read once the lifetime has passed
/// finds nothing.
pub proof fn lemma_expiry(m: &MemoryStorage, key: Seq<char>, now: int, ttl_secs: int, later: int)
    requires
        m.records().contains_key(key),
        m.expiries().contains_key(key),
        m.expiries()[key] == expiry(now, ttl_secs),
    ensures
        later <= expiry(now, ttl_secs) ==> m.live_at(key, later),
        later > expiry(now, ttl_secs) ==> !m.live_at(key, later),
{
}

} // verus!
