//! The account repository the core works against: lookup by email, name or
//! id, creation, and the three field updates the workflows commit.
//!
//! Ids and emails are unique across the store and stay so under every
//! operation; display names need not be unique, so a name lookup can return
//! several candidates.

use vstd::prelude::*;
use vstd::pervasive::VecAdditionalExecFns;

use crate::account::{
    activate_all, set_last_login_all, set_password_all, Account, AccountStatus,
};
use crate::crypto::PasswordHash;

verus! {

/// Whether some record in `s` carries this email.
pub open spec fn has_email(s: Seq<Account>, email: Seq<char>) -> bool {
    exists|i: int| 0 <= i < s.len() && s[i].email@ == email
}

/// Whether some record in `s` carries this id.
pub open spec fn has_id(s: Seq<Account>, id: u64) -> bool {
    exists|i: int| 0 <= i < s.len() && s[i].account_id == id
}

/// Whether the identifier a user logged in with names this record: it is the
/// record's email or its display name.
pub open spec fn ident_matches(a: Account, ident: Seq<char>) -> bool {
    a.email@ == ident || a.name@ == ident
}

/// The identifier predicate as a value, for stating filters over it.
pub open spec fn ident_pred(ident: Seq<char>) -> spec_fn(Account) -> bool {
    |a: Account| ident_matches(a, ident)
}

/// The in-memory account store.
#[derive(Debug)]
pub struct AccountStore {
    pub accounts: Vec<Account>,
    pub next_id: u64,
}

impl AccountStore {
    /// Well-formedness: ids unique, emails unique, and every id below the
    /// next one to be handed out.
    pub open spec fn wf(self) -> bool {
        &&& forall|i: int, j: int|
            0 <= i < self.accounts@.len() && 0 <= j < self.accounts@.len() && i != j
                ==> #[trigger] self.accounts@[i].account_id != #[trigger] self.accounts@[j].account_id
        &&& forall|i: int, j: int|
            0 <= i < self.accounts@.len() && 0 <= j < self.accounts@.len() && i != j
                ==> #[trigger] self.accounts@[i].email@ != #[trigger] self.accounts@[j].email@
        &&& forall|i: int|
            0 <= i < self.accounts@.len() ==> #[trigger] self.accounts@[i].account_id
                < self.next_id
    }

    /// An empty store.
    pub fn new() -> (r: Self)
        ensures
            r.wf(),
            r.accounts@.len() == 0,
            r.next_id == 0,
    {
        AccountStore { accounts: Vec::new(), next_id: 0 }
    }

    /// Whether an account with this email exists.
    pub fn exists_by_email(&self, email: &String) -> (r: bool)
        ensures
            r == has_email(self.accounts@, email@),
    {
        let n = self.accounts.len();
        let mut i: usize = 0;
        while i < n
            invariant
                n == self.accounts@.len(),
                i <= n,
                forall|j: int| 0 <= j < i ==> #[trigger] self.accounts@[j].email@ != email@,
            decreases n - i,
        {
            if self.accounts[i].email.eq(email) {
                return true;
            }
            i = i + 1;
        }
        false
    }

    /// The account with this email, if any.
    pub fn find_by_email(&self, email: &String) -> (r: Option<Account>)
        ensures
            r is Some <==> has_email(self.accounts@, email@),
            r is Some ==> exists|i: int|
                0 <= i < self.accounts@.len() && #[trigger] self.accounts@[i].email@ == email@
                    && r == Some(self.accounts@[i]),
    {
        let n = self.accounts.len();
        let mut i: usize = 0;
        while i < n
            invariant
                n == self.accounts@.len(),
                i <= n,
                forall|j: int| 0 <= j < i ==> #[trigger] self.accounts@[j].email@ != email@,
            decreases n - i,
        {
            if self.accounts[i].email.eq(email) {
                return Some(self.accounts[i].clone());
            }
            i = i + 1;
        }
        None
    }

    /// The account with this id, if any.
    pub fn find_by_id(&self, id: u64) -> (r: Option<Account>)
        ensures
            r is Some <==> has_id(self.accounts@, id),
            r is Some ==> exists|i: int|
                0 <= i < self.accounts@.len() && #[trigger] self.accounts@[i].account_id == id && r
                    == Some(self.accounts@[i]),
    {
        let n = self.accounts.len();
        let mut i: usize = 0;
        while i < n
            invariant
                n == self.accounts@.len(),
                i <= n,
                forall|j: int| 0 <= j < i ==> #[trigger] self.accounts@[j].account_id != id,
            decreases n - i,
        {
            if self.accounts[i].account_id == id {
                return Some(self.accounts[i].clone());
            }
            i = i + 1;
        }
        None
    }

    /// Every account whose email or display name equals the identifier, in
    /// store order. Name lookups may be non-unique, so this is a list.
    pub fn find_by_email_or_name(&self, ident: &String) -> (r: Vec<Account>)
        ensures
            r@ == self.accounts@.filter(ident_pred(ident@)),
    {
        let n = self.accounts.len();
        let mut out: Vec<Account> = Vec::new();
        let mut i: usize = 0;
        proof {
            reveal(Seq::filter);
            assert(self.accounts@.subrange(0, 0).filter(ident_pred(ident@))
                =~= Seq::<Account>::empty());
        }
        while i < n
            invariant
                n == self.accounts@.len(),
                i <= n,
                out@ == self.accounts@.subrange(0, i as int).filter(ident_pred(ident@)),
            decreases n - i,
        {
            let matches_here = self.accounts[i].email.eq(ident) || self.accounts[i].name.eq(ident);
            if matches_here {
                out.push(self.accounts[i].clone());
            }
            proof {
                reveal(Seq::filter);
                let pre = self.accounts@.subrange(0, i as int);
                let cur = self.accounts@.subrange(0, i + 1 as int);
                assert(cur.drop_last() =~= pre);
                assert(cur.last() == self.accounts@[i as int]);
            }
            i = i + 1;
        }
        proof {
            assert(self.accounts@.subrange(0, n as int) =~= self.accounts@);
        }
        out
    }

    /// Creates a fresh account under the next id: inactive, email
    /// unverified, with the given credential hash. The caller has ruled out
    /// a duplicate email, so uniqueness is preserved.
    pub fn insert(&mut self, email: &String, name: &String, password_hash: PasswordHash) -> (r:
        Account)
        requires
            old(self).wf(),
            old(self).next_id < u64::MAX,
            !has_email(old(self).accounts@, email@),
        ensures
            final(self).wf(),
            r == (Account {
                account_id: old(self).next_id,
                email: *email,
                name: *name,
                password_hash,
                status: AccountStatus::Inactive,
                last_login: 0,
                email_verified_at: None,
            }),
            final(self).accounts@ == old(self).accounts@.push(r),
            final(self).next_id == old(self).next_id + 1,
    {
        let r = Account {
            account_id: self.next_id,
            email: email.clone(),
            name: name.clone(),
            password_hash,
            status: AccountStatus::Inactive,
            last_login: 0,
            email_verified_at: None,
        };
        self.accounts.push(r.clone());
        self.next_id = self.next_id + 1;
        r
    }

    /// Commits the activation mutation for this id: email verified at `at`,
    /// status `Active`. Returns how many records changed.
    pub fn update_email_verified(&mut self, id: u64, at: u64) -> (affected: usize)
        requires
            old(self).wf(),
        ensures
            final(self).wf(),
            final(self).accounts@ == activate_all(old(self).accounts@, id, at),
            final(self).next_id == old(self).next_id,
    {
        let n = self.accounts.len();
        let ghost target = activate_all(old(self).accounts@, id, at);
        let mut affected: usize = 0;
        let mut i: usize = 0;
        while i < n
            invariant
                n == self.accounts@.len(),
                i <= n,
                affected <= i,
                self.next_id == old(self).next_id,
                target == activate_all(old(self).accounts@, id, at),
                target.len() == n,
                forall|j: int| 0 <= j < i ==> self.accounts@[j] == target[j],
                forall|j: int| i <= j < n ==> self.accounts@[j] == old(self).accounts@[j],
            decreases n - i,
        {
            if self.accounts[i].account_id == id {
                let mut a = self.accounts[i].clone();
                a.status = AccountStatus::Active;
                a.email_verified_at = Some(at);
                self.accounts.set(i, a);
                affected = affected + 1;
            }
            i = i + 1;
        }
        proof {
            assert(self.accounts@ =~= target);
            lemma_keyed_update_preserves_wf(*old(self), *self);
        }
        affected
    }

    /// Overwrites the credential hash for this id. Returns how many records
    /// changed.
    pub fn update_password_hash(&mut self, id: u64, h: PasswordHash) -> (affected: usize)
        requires
            old(self).wf(),
        ensures
            final(self).wf(),
            final(self).accounts@ == set_password_all(old(self).accounts@, id, h),
            final(self).next_id == old(self).next_id,
    {
        let n = self.accounts.len();
        let ghost target = set_password_all(old(self).accounts@, id, h);
        let mut affected: usize = 0;
        let mut i: usize = 0;
        while i < n
            invariant
                n == self.accounts@.len(),
                i <= n,
                affected <= i,
                self.next_id == old(self).next_id,
                target == set_password_all(old(self).accounts@, id, h),
                target.len() == n,
                forall|j: int| 0 <= j < i ==> self.accounts@[j] == target[j],
                forall|j: int| i <= j < n ==> self.accounts@[j] == old(self).accounts@[j],
            decreases n - i,
        {
            if self.accounts[i].account_id == id {
                let mut a = self.accounts[i].clone();
                a.password_hash = h;
                self.accounts.set(i, a);
                affected = affected + 1;
            }
            i = i + 1;
        }
        proof {
            assert(self.accounts@ =~= target);
            lemma_keyed_update_preserves_wf(*old(self), *self);
        }
        affected
    }

    /// Overwrites the last-login timestamp for this id. Returns how many
    /// records changed.
    pub fn update_last_login(&mut self, id: u64, at: u64) -> (affected: usize)
        requires
            old(self).wf(),
        ensures
            final(self).wf(),
            final(self).accounts@ == set_last_login_all(old(self).accounts@, id, at),
            final(self).next_id == old(self).next_id,
    {
        let n = self.accounts.len();
        let ghost target = set_last_login_all(old(self).accounts@, id, at);
        let mut affected: usize = 0;
        let mut i: usize = 0;
        while i < n
            invariant
                n == self.accounts@.len(),
                i <= n,
                affected <= i,
                self.next_id == old(self).next_id,
                target == set_last_login_all(old(self).accounts@, id, at),
                target.len() == n,
                forall|j: int| 0 <= j < i ==> self.accounts@[j] == target[j],
                forall|j: int| i <= j < n ==> self.accounts@[j] == old(self).accounts@[j],
            decreases n - i,
        {
            if self.accounts[i].account_id == id {
                let mut a = self.accounts[i].clone();
                a.last_login = at;
                self.accounts.set(i, a);
                affected = affected + 1;
            }
            i = i + 1;
        }
        proof {
            assert(self.accounts@ =~= target);
            lemma_keyed_update_preserves_wf(*old(self), *self);
        }
        affected
    }
}

/// A keyed field update neither adds records nor touches ids or emails, so
/// well-formedness carries over.
proof fn lemma_keyed_update_preserves_wf(pre: AccountStore, post: AccountStore)
    requires
        pre.wf(),
        post.accounts@.len() == pre.accounts@.len(),
        post.next_id == pre.next_id,
        forall|i: int|
            0 <= i < pre.accounts@.len() ==> #[trigger] post.accounts@[i].account_id
                == pre.accounts@[i].account_id && post.accounts@[i].email == pre.accounts@[i].email,
    ensures
        post.wf(),
{
    assert forall|i: int, j: int|
        0 <= i < post.accounts@.len() && 0 <= j < post.accounts@.len() && i != j implies #[trigger] post.accounts@[i].account_id
        != #[trigger] post.accounts@[j].account_id by {
        assert(post.accounts@[i].account_id == pre.accounts@[i].account_id);
        assert(post.accounts@[j].account_id == pre.accounts@[j].account_id);
        assert(pre.accounts@[i].account_id != pre.accounts@[j].account_id);
    }
    assert forall|i: int, j: int|
        0 <= i < post.accounts@.len() && 0 <= j < post.accounts@.len() && i != j implies #[trigger] post.accounts@[i].email@
        != #[trigger] post.accounts@[j].email@ by {
        assert(post.accounts@[i].account_id == pre.accounts@[i].account_id);
        assert(post.accounts@[j].account_id == pre.accounts@[j].account_id);
        assert(post.accounts@[i].email == pre.accounts@[i].email);
        assert(post.accounts@[j].email == pre.accounts@[j].email);
        assert(pre.accounts@[i].email@ != pre.accounts@[j].email@);
    }
    assert forall|i: int|
        0 <= i < post.accounts@.len() implies #[trigger] post.accounts@[i].account_id
        < post.next_id by {
        assert(post.accounts@[i].account_id == pre.accounts@[i].account_id);
        assert(pre.accounts@[i].account_id < pre.next_id);
    }
}

} // verus!
