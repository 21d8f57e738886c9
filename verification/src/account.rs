//! The account record and the spec-level mutations the workflows apply to it.

use vstd::prelude::*;

use crate::crypto::PasswordHash;

verus! {

/// Lifecycle state of an account. A fresh registration is `Inactive`; only a
/// successful activation-code verification flips it to `Active`.
#[derive(Clone, Copy, Debug, PartialEq, Eq, Structural)]
pub enum AccountStatus {
    Inactive,
    Active,
    Suspended,
}

/// One identity record. The id and the email are unique across a store.
#[derive(Debug)]
pub struct Account {
    pub account_id: u64,
    pub email: String,
    pub name: String,
    pub password_hash: PasswordHash,
    pub status: AccountStatus,
    pub last_login: u64,
    pub email_verified_at: Option<u64>,
}

impl Clone for Account {
    fn clone(&self) -> (r: Self)
        ensures
            r == *self,
    {
        Account {
            account_id: self.account_id,
            email: self.email.clone(),
            name: self.name.clone(),
            password_hash: self.password_hash,
            status: self.status,
            last_login: self.last_login,
            email_verified_at: self.email_verified_at,
        }
    }
}

/// The activation mutation on one record: mark the email verified now and
/// flip the status to `Active`. Everything else is untouched.
pub open spec fn activated_of(a: Account, at: u64) -> Account {
    Account { status: AccountStatus::Active, email_verified_at: Some(at), ..a }
}

/// One record with its password hash overwritten.
pub open spec fn with_password(a: Account, h: PasswordHash) -> Account {
    Account { password_hash: h, ..a }
}

/// One record with its last-login timestamp overwritten.
pub open spec fn with_last_login(a: Account, at: u64) -> Account {
    Account { last_login: at, ..a }
}

/// The activation mutation applied across a sequence: every record with the
/// given id is activated, every other record is untouched.
pub open spec fn activate_all(s: Seq<Account>, id: u64, at: u64) -> Seq<Account> {
    Seq::new(
        s.len(),
        |i: int|
            if s[i].account_id == id {
                activated_of(s[i], at)
            } else {
                s[i]
            },
    )
}

/// The password overwrite applied across a sequence, by id.
pub open spec fn set_password_all(s: Seq<Account>, id: u64, h: PasswordHash) -> Seq<Account> {
    Seq::new(
        s.len(),
        |i: int|
            if s[i].account_id == id {
                with_password(s[i], h)
            } else {
                s[i]
            },
    )
}

/// The last-login overwrite applied across a sequence, by id.
pub open spec fn set_last_login_all(s: Seq<Account>, id: u64, at: u64) -> Seq<Account> {
    Seq::new(
        s.len(),
        |i: int|
            if s[i].account_id == id {
                with_last_login(s[i], at)
            } else {
                s[i]
            },
    )
}

/// Applying the activation mutation twice is absorbed by the later apply:
/// the status ends `Active` either way, so a duplicate apply of the
/// activation (two racing verifications) is harmless.
pub proof fn lemma_activation_idempotent(s: Seq<Account>, id: u64, t1: u64, t2: u64)
    ensures
        activate_all(activate_all(s, id, t1), id, t2) == activate_all(s, id, t2),
        forall|i: int|
            0 <= i < s.len() && s[i].account_id == id ==> #[trigger] activate_all(
                activate_all(s, id, t1),
                id,
                t2,
            )[i].status == AccountStatus::Active,
{
    assert(activate_all(activate_all(s, id, t1), id, t2) =~= activate_all(s, id, t2));
}

} // verus!
