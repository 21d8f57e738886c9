//! The ephemeral code store: a key-value cache with per-key expiry, holding
//! one-time verification codes keyed by `(subject, purpose)`.
//!
//! Each key is an independent expiring cell: `put` overwrites whatever was
//! there, `get` hides entries whose time is up, and `delete` is idempotent.
//! The two purposes map to disjoint keys even for the same subject, so an
//! activation code can never be mistaken for a reset code.

use std::collections::HashMap;
use vstd::prelude::*;
use vstd::std_specs::hash::group_hash_axioms;

verus! {

broadcast use group_hash_axioms;

/// What a one-time code proves: control of the mailbox for exactly one of the
/// two verification workflows.
#[derive(Clone, Copy, Debug, PartialEq, Eq, Structural)]
pub enum Purpose {
    ActivateAccount,
    ResetPassword,
}

/// The tag that separates the two purposes in the key space.
pub open spec fn purpose_tag(p: Purpose) -> u128 {
    match p {
        Purpose::ActivateAccount => 0,
        Purpose::ResetPassword => 1,
    }
}

/// The cache key of a `(subject, purpose)` pair.
pub open spec fn key_of(subject: u64, p: Purpose) -> u128 {
    ((subject as u128) * 2 + purpose_tag(p)) as u128
}

/// Distinct `(subject, purpose)` pairs always map to distinct keys; in
/// particular the two purposes use disjoint keys even for the same subject.
pub proof fn lemma_key_of_injective(s1: u64, p1: Purpose, s2: u64, p2: Purpose)
    ensures
        key_of(s1, p1) == key_of(s2, p2) <==> (s1 == s2 && p1 == p2),
{
}

/// One stored code together with the moment it stops being usable.
#[derive(Debug)]
pub struct StoredCode {
    pub code: String,
    pub expires_at: u64,
}

impl Clone for StoredCode {
    fn clone(&self) -> (r: Self)
        ensures
            r == *self,
    {
        StoredCode { code: self.code.clone(), expires_at: self.expires_at }
    }
}

/// Whether the entry under `k` exists and is still within its time to live.
pub open spec fn live_at(m: Map<u128, StoredCode>, k: u128, now: u64) -> bool {
    m.contains_key(k) && now < m[k].expires_at
}

/// The ephemeral code store.
#[derive(Debug)]
pub struct CodeStore {
    pub entries: HashMap<u128, StoredCode>,
}

impl CodeStore {
    /// The store as a map from key to stored code.
    pub open spec fn view(self) -> Map<u128, StoredCode> {
        self.entries@
    }

    /// An empty store.
    pub fn new() -> (r: Self)
        ensures
            r@ == Map::<u128, StoredCode>::empty(),
    {
        CodeStore { entries: HashMap::new() }
    }

    /// Upserts the code for `(subject, purpose)` with the given time to live,
    /// overwriting any prior entry for that key: at most one code is ever
    /// live per `(subject, purpose)` pair.
    pub fn put(&mut self, subject: u64, purpose: Purpose, code: &String, now: u64, ttl: u64)
        requires
            now + ttl <= u64::MAX,
        ensures
            final(self)@ == old(self)@.insert(
                key_of(subject, purpose),
                (StoredCode { code: *code, expires_at: (now + ttl) as u64 }),
            ),
    {
        let k = key_of_exec(subject, purpose);
        let stored = StoredCode { code: code.clone(), expires_at: now + ttl };
        self.entries.insert(k, stored);
    }

    /// Returns the stored code for `(subject, purpose)`, or `None` if no
    /// entry exists or its time to live has elapsed.
    pub fn get(&self, subject: u64, purpose: Purpose, now: u64) -> (r: Option<String>)
        ensures
            live_at(self@, key_of(subject, purpose), now) ==> r == Some(
                self@[key_of(subject, purpose)].code,
            ),
            !live_at(self@, key_of(subject, purpose), now) ==> r is None,
    {
        let k = key_of_exec(subject, purpose);
        match self.entries.get(&k) {
            Some(stored) => {
                if now < stored.expires_at {
                    Some(stored.code.clone())
                } else {
                    None
                }
            },
            None => None,
        }
    }

    /// Removes the entry for `(subject, purpose)`. Idempotent: removing an
    /// absent key leaves the store as it is.
    pub fn delete(&mut self, subject: u64, purpose: Purpose)
        ensures
            final(self)@ == old(self)@.remove(key_of(subject, purpose)),
    {
        let k = key_of_exec(subject, purpose);
        self.entries.remove(&k);
    }
}

/// Computes the cache key of a `(subject, purpose)` pair.
fn key_of_exec(subject: u64, purpose: Purpose) -> (k: u128)
    ensures
        k == key_of(subject, purpose),
{
    let tag: u128 = match purpose {
        Purpose::ActivateAccount => 0,
        Purpose::ResetPassword => 1,
    };
    (subject as u128) * 2 + tag
}

} // verus!
