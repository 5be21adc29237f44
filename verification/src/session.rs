//! The per-request session: identifier, key/value data, expiry and the
//! two lifecycle flags, plus the request-scoped slot that carries the
//! session through the handler chain.
use vstd::prelude::*;

use crate::str_eq;

verus! {

/// The binding of `key` in an association list where a later entry for
/// the same key shadows an earlier one.
pub open spec fn assoc_get(s: Seq<(String, String)>, key: Seq<char>) -> Option<Seq<char>>
    decreases s.len(),
{
    if s.len() == 0 {
        None
    } else if s.last().0@ == key {
        Some(s.last().1@)
    } else {
        assoc_get(s.drop_last(), key)
    }
}

/// Server-tracked, per-client unit of state attached to a signed
/// identifier cookie. Exactly one lives per request; it is consumed when
/// the request ends to decide persistence.
pub struct Session {
    id: Vec<u8>,
    data: Vec<(String, String)>,
    expiry: Option<u64>,
    data_changed: bool,
    destroyed: bool,
}

impl Session {
    /// The opaque identifier the session was created with.
    pub closed spec fn spec_id(&self) -> Seq<u8> {
        self.id@
    }

    /// The data entries, in insertion order; a later entry for the same
    /// key shadows an earlier one.
    pub closed spec fn spec_entries(&self) -> Seq<(String, String)> {
        self.data@
    }

    /// The value bound to a key of the session data, if any.
    pub open spec fn spec_get(&self, key: Seq<char>) -> Option<Seq<char>> {
        assoc_get(self.spec_entries(), key)
    }

    /// Absolute expiry timestamp, in seconds, if one was set.
    pub closed spec fn spec_expiry(&self) -> Option<u64> {
        self.expiry
    }

    /// Whether the data changed since the session was created or loaded.
    pub closed spec fn spec_data_changed(&self) -> bool {
        self.data_changed
    }

    /// Whether a handler marked the session destroyed.
    pub closed spec fn spec_destroyed(&self) -> bool {
        self.destroyed
    }

    /// A fresh, empty session under a caller-chosen identifier: no data,
    /// no expiry, not changed, not destroyed.
    pub fn new(id: Vec<u8>) -> (s: Session)
        ensures
            s.spec_id() == id@,
            forall|k: Seq<char>| s.spec_get(k) is None,
            s.spec_expiry() is None,
            !s.spec_data_changed(),
            !s.spec_destroyed(),
    {
        Session { id, data: Vec::new(), expiry: None, data_changed: false, destroyed: false }
    }

    /// The identifier bytes.
    pub fn id(&self) -> (r: &[u8])
        ensures
            r@ == self.spec_id(),
    {
        self.id.as_slice()
    }

    /// The data entries, for a store to persist.
    pub fn entries(&self) -> (r: &Vec<(String, String)>)
        ensures
            r@ == self.spec_entries(),
    {
        &self.data
    }

    /// The expiry timestamp, for a store to persist.
    pub fn expiry(&self) -> (r: Option<u64>)
        ensures
            r == self.spec_expiry(),
    {
        self.expiry
    }

    /// Look a key up in the session data.
    pub fn get(&self, key: &str) -> (r: Option<String>)
        ensures
            match r {
                Some(v) => self.spec_get(key@) == Some(v@),
                None => self.spec_get(key@) is None,
            },
    {
        let ghost full = self.data@;
        proof {
            assert(full.take(full.len() as int) =~= full);
        }
        let mut i: usize = self.data.len();
        while i > 0
            invariant
                0 <= i <= self.data@.len(),
                self.data@ == full,
                assoc_get(full, key@) == assoc_get(full.take(i as int), key@),
            decreases i,
        {
            i = i - 1;
            if str_eq(self.data[i].0.as_str(), key) {
                proof {
                    assert(full.take(i as int + 1).last() == full[i as int]);
                }
                return Some(self.data[i].1.clone());
            }
            proof {
                assert(full.take(i as int + 1).last() == full[i as int]);
                assert(full.take(i as int + 1).drop_last() =~= full.take(i as int));
            }
        }
        proof {
            assert(full.take(0) =~= Seq::<(String, String)>::empty());
        }
        None
    }

    /// Bind a key to a value. The change flag is raised only when the
    /// binding differs from the current one.
    pub fn insert(&mut self, key: String, value: String)
        ensures
            final(self).spec_id() == old(self).spec_id(),
            final(self).spec_expiry() == old(self).spec_expiry(),
            final(self).spec_destroyed() == old(self).spec_destroyed(),
            final(self).spec_get(key@) == Some(value@),
            forall|k: Seq<char>| k != key@ ==> final(self).spec_get(k) == old(self).spec_get(k),
            final(self).spec_data_changed() == (old(self).spec_data_changed() || old(
                self,
            ).spec_get(key@) != Some(value@)),
    {
        let same: bool = match self.get(key.as_str()) {
            Some(cur) => str_eq(cur.as_str(), value.as_str()),
            None => false,
        };
        if !same {
            self.data_changed = true;
        }
        let ghost before = self.data@;
        self.data.push((key, value));
        proof {
            assert(self.data@.drop_last() =~= before);
        }
    }

    /// Remove every binding of a key. The change flag is raised only
    /// when the key was bound.
    pub fn remove(&mut self, key: &str)
        ensures
            final(self).spec_id() == old(self).spec_id(),
            final(self).spec_expiry() == old(self).spec_expiry(),
            final(self).spec_destroyed() == old(self).spec_destroyed(),
            final(self).spec_get(key@) is None,
            forall|k: Seq<char>| k != key@ ==> final(self).spec_get(k) == old(self).spec_get(k),
            final(self).spec_data_changed() == (old(self).spec_data_changed() || old(
                self,
            ).spec_get(key@) is Some),
    {
        let ghost full = self.data@;
        let mut out: Vec<(String, String)> = Vec::new();
        let mut found: bool = false;
        let mut i: usize = 0;
        while i < self.data.len()
            invariant
                0 <= i <= self.data@.len(),
                self.data@ == full,
                found == (assoc_get(full.take(i as int), key@) is Some),
                assoc_get(out@, key@) is None,
                forall|k: Seq<char>|
                    k != key@ ==> assoc_get(out@, k) == assoc_get(full.take(i as int), k),
            decreases full.len() - i,
        {
            let keep = !str_eq(self.data[i].0.as_str(), key);
            proof {
                assert(full.take(i as int + 1).last() == full[i as int]);
                assert(full.take(i as int + 1).drop_last() =~= full.take(i as int));
            }
            if keep {
                let ghost out_before = out@;
                out.push((self.data[i].0.clone(), self.data[i].1.clone()));
                proof {
                    assert(out@.last().0@ == full[i as int].0@);
                    assert(out@.last().1@ == full[i as int].1@);
                    assert(out@.drop_last() =~= out_before);
                    assert forall|k: Seq<char>| k != key@ implies assoc_get(out@, k)
                        == assoc_get(full.take(i as int + 1), k) by {
                        if full[i as int].0@ == k {
                            assert(assoc_get(out@, k) == Some(out@.last().1@));
                            assert(assoc_get(full.take(i as int + 1), k) == Some(
                                full[i as int].1@,
                            ));
                        } else {
                            assert(assoc_get(out@, k) == assoc_get(out@.drop_last(), k));
                            assert(assoc_get(full.take(i as int + 1), k) == assoc_get(
                                full.take(i as int),
                                k,
                            ));
                        }
                    }
                }
            } else {
                found = true;
            }
            i = i + 1;
        }
        proof {
            assert(full.take(full.len() as int) =~= full);
        }
        self.data = out;
        if found {
            self.data_changed = true;
        }
    }

    /// Set the expiry to `now + ttl`. Refreshing the expiry does not by
    /// itself count as a data change.
    pub fn expire_in(&mut self, now: u64, ttl: u64)
        requires
            now + ttl <= u64::MAX,
        ensures
            final(self).spec_id() == old(self).spec_id(),
            final(self).spec_expiry() == Some((now + ttl) as u64),
            forall|k: Seq<char>| final(self).spec_get(k) == old(self).spec_get(k),
            final(self).spec_data_changed() == old(self).spec_data_changed(),
            final(self).spec_destroyed() == old(self).spec_destroyed(),
    {
        self.expiry = Some(now + ttl);
    }

    /// Mark the session destroyed; the flag is one-way.
    pub fn destroy(&mut self)
        ensures
            final(self).spec_id() == old(self).spec_id(),
            final(self).spec_expiry() == old(self).spec_expiry(),
            forall|k: Seq<char>| final(self).spec_get(k) == old(self).spec_get(k),
            final(self).spec_data_changed() == old(self).spec_data_changed(),
            final(self).spec_destroyed(),
    {
        self.destroyed = true;
    }

    /// Whether a handler marked the session destroyed.
    pub fn is_destroyed(&self) -> (r: bool)
        ensures
            r == self.spec_destroyed(),
    {
        self.destroyed
    }

    /// Lower the change flag, as a store does after handing out a
    /// loaded session: changes are counted from this point on.
    pub fn reset_data_changed(&mut self)
        ensures
            final(self).spec_id() == old(self).spec_id(),
            final(self).spec_expiry() == old(self).spec_expiry(),
            forall|k: Seq<char>| final(self).spec_get(k) == old(self).spec_get(k),
            !final(self).spec_data_changed(),
            final(self).spec_destroyed() == old(self).spec_destroyed(),
    {
        self.data_changed = false;
    }

    /// Whether the data changed since creation or load.
    pub fn data_changed(&self) -> (r: bool)
        ensures
            r == self.spec_data_changed(),
    {
        self.data_changed
    }

    /// Whether the session lies strictly in the past of `now`.
    pub open spec fn spec_is_expired(&self, now: u64) -> bool {
        match self.spec_expiry() {
            Some(e) => e < now,
            None => false,
        }
    }

    /// Expiry check against a caller-supplied clock reading.
    pub fn is_expired(&self, now: u64) -> (r: bool)
        ensures
            r == self.spec_is_expired(now),
    {
        match self.expiry {
            Some(e) => e < now,
            None => false,
        }
    }

    /// Hand the session back only if it has not expired.
    pub fn validate(self, now: u64) -> (r: Option<Session>)
        ensures
            match r {
                Some(s) => s == self && !self.spec_is_expired(now),
                None => self.spec_is_expired(now),
            },
    {
        if self.is_expired(now) {
            None
        } else {
            Some(self)
        }
    }
}

/// The request-scoped slot holding the one session of a request: an
/// explicit presence-or-absence entry, not a process-wide global.
pub struct SessionDepot {
    slot: Option<Session>,
}

impl SessionDepot {
    /// What the slot holds.
    pub closed spec fn spec_session(&self) -> Option<Session> {
        self.slot
    }

    /// An empty slot.
    pub fn new() -> (r: SessionDepot)
        ensures
            r.spec_session() is None,
    {
        SessionDepot { slot: None }
    }

    /// Set session, replacing whatever the slot held.
    pub fn set_session(&mut self, session: Session)
        ensures
            final(self).spec_session() == Some(session),
    {
        self.slot = Some(session);
    }

    /// Take session, leaving the slot empty.
    pub fn take_session(&mut self) -> (r: Option<Session>)
        ensures
            r == old(self).spec_session(),
            final(self).spec_session() is None,
    {
        self.slot.take()
    }

    /// Get session reference.
    pub fn session(&self) -> (r: Option<&Session>)
        ensures
            match r {
                Some(s) => self.spec_session() == Some(*s),
                None => self.spec_session() is None,
            },
    {
        self.slot.as_ref()
    }
}

} // verus!
