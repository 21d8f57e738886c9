//! The orchestrator: registration, login, token refresh, and the two
//! code-gated workflows (account activation and password reset) composed
//! over the repository, the code store and the token service.

use vstd::prelude::*;

use crate::account::{activate_all, set_last_login_all, set_password_all, Account, AccountStatus};
use crate::crypto::{code_of, generate_code, hash_password, spec_hash, spec_verify, verify_password};
use crate::errors::AuthError;
use crate::notify::Email;
use crate::repo::{has_email, has_id, ident_matches, AccountStore};
use crate::store::{key_of, live_at, CodeStore, Purpose, StoredCode};
use crate::token::{issue, issue_spec, parse, parse_result, Claims, SignedToken, TokenPair, TokenType, REFRESH_TTL_SECS};

verus! {

/// Time to live of a one-time verification code, in seconds.
pub const CODE_TTL_SECS: u64 = 300;

/// Length of a one-time verification code, in characters.
pub const CODE_LEN: usize = 6;

/// Whether the record at index `i` both matches the login identifier and
/// verifies the submitted password.
pub open spec fn login_ok_at(s: Seq<Account>, ident: Seq<char>, password: Seq<char>, i: int) -> bool {
    0 <= i < s.len() && ident_matches(s[i], ident) && spec_verify(s[i].password_hash, password)
}

/// The identity core: the account repository, the ephemeral code store and
/// the token-signing secret, which is fixed at construction.
#[derive(Debug)]
pub struct AuthCore {
    pub accounts: AccountStore,
    pub codes: CodeStore,
    pub secret: u64,
}

impl AuthCore {
    /// Well-formedness of the whole core.
    pub open spec fn wf(self) -> bool {
        self.accounts.wf()
    }

    /// A fresh core with no accounts and no stored codes.
    pub fn new(secret: u64) -> (r: Self)
        ensures
            r.wf(),
            r.accounts.accounts@.len() == 0,
            r.codes@ == Map::<u128, StoredCode>::empty(),
            r.secret == secret,
    {
        AuthCore { accounts: AccountStore::new(), codes: CodeStore::new(), secret }
    }

    /// Registration: fails `UserAlreadyExists` if the email is taken and
    /// changes nothing; otherwise hashes the password under the given salt
    /// and inserts a fresh account with status `Inactive`, whose stored hash
    /// verifies against the submitted password and is not the plaintext.
    pub fn register(&mut self, email: &String, name: &String, password: &String, salt: u64) -> (r:
        Result<Account, AuthError>)
        requires
            old(self).wf(),
            old(self).accounts.next_id < u64::MAX,
        ensures
            final(self).wf(),
            final(self).secret == old(self).secret,
            final(self).codes == old(self).codes,
            has_email(old(self).accounts.accounts@, email@) ==> r == Err::<Account, AuthError>(
                AuthError::UserAlreadyExists,
            ) && *final(self) == *old(self),
            !has_email(old(self).accounts.accounts@, email@) ==> r is Ok && ({
                let a = r->Ok_0;
                &&& a.account_id == old(self).accounts.next_id
                &&& a.email@ == email@
                &&& a.name@ == name@
                &&& a.status == AccountStatus::Inactive
                &&& a.password_hash == spec_hash(password@, salt)
                &&& spec_verify(a.password_hash, password@)
                &&& a.email_verified_at is None
                &&& final(self).accounts.accounts@ == old(self).accounts.accounts@.push(a)
                &&& final(self).accounts.next_id == old(self).accounts.next_id + 1
            }),
    {
        if self.accounts.exists_by_email(email) {
            return Err(AuthError::UserAlreadyExists);
        }
        let h = hash_password(password.as_str(), salt);
        let a = self.accounts.insert(email, name, h);
        Ok(a)
    }

    /// Login: the identifier may be an email or a display name, and names
    /// need not be unique, so every matching candidate is tried in store
    /// order until one verifies the password. The first such account gets a
    /// fresh token pair and its last-login stamped `now`; if no candidate
    /// verifies — or none matches at all — the single answer is
    /// `WrongCredentials`, revealing nothing about which field was wrong.
    pub fn login(&mut self, identifier: &String, password: &String, now: u64) -> (r: Result<
        (TokenPair, Account),
        AuthError,
    >)
        requires
            old(self).wf(),
            now + REFRESH_TTL_SECS <= u64::MAX,
        ensures
            final(self).wf(),
            final(self).secret == old(self).secret,
            final(self).codes == old(self).codes,
            final(self).accounts.next_id == old(self).accounts.next_id,
            r is Ok <==> exists|i: int|
                login_ok_at(old(self).accounts.accounts@, identifier@, password@, i),
            r is Err ==> r == Err::<(TokenPair, Account), AuthError>(AuthError::WrongCredentials)
                && *final(self) == *old(self),
            r is Ok ==> exists|i: int|
                #![trigger login_ok_at(old(self).accounts.accounts@, identifier@, password@, i)]
                {
                    let s = old(self).accounts.accounts@;
                    &&& login_ok_at(s, identifier@, password@, i)
                    &&& forall|j: int| 0 <= j < i ==> !login_ok_at(s, identifier@, password@, j)
                    &&& r->Ok_0.1 == s[i]
                    &&& r->Ok_0.0 == issue_spec(s[i], now, old(self).secret)
                    &&& final(self).accounts.accounts@ == set_last_login_all(
                        s,
                        s[i].account_id,
                        now,
                    )
                },
    {
        let n = self.accounts.accounts.len();
        let mut i: usize = 0;
        while i < n
            invariant
                old(self) == self,
                self.wf(),
                now + REFRESH_TTL_SECS <= u64::MAX,
                n == self.accounts.accounts@.len(),
                i <= n,
                forall|j: int|
                    0 <= j < i ==> !login_ok_at(self.accounts.accounts@, identifier@, password@, j),
            decreases n - i,
        {
            let matches_here = self.accounts.accounts[i].email.eq(identifier)
                || self.accounts.accounts[i].name.eq(identifier);
            if matches_here {
                if verify_password(&self.accounts.accounts[i].password_hash, password.as_str()) {
                    let account = self.accounts.accounts[i].clone();
                    let pair = issue(&account, now, self.secret);
                    let _affected = self.accounts.update_last_login(account.account_id, now);
                    proof {
                        assert(login_ok_at(
                            old(self).accounts.accounts@,
                            identifier@,
                            password@,
                            i as int,
                        ));
                    }
                    return Ok((pair, account));
                }
            }
            i = i + 1;
        }
        Err(AuthError::WrongCredentials)
    }

    /// Refresh: the presented token must parse as a non-expired refresh
    /// token; its subject is then looked up afresh, so the new pair reflects
    /// the account's current state rather than the stale claims. A subject
    /// that no longer exists fails `WrongCredentials`. Nothing is mutated;
    /// the old refresh token is not revoked and stays valid to its expiry.
    pub fn refresh(&self, token: &SignedToken, now: u64) -> (r: Result<TokenPair, AuthError>)
        requires
            self.wf(),
            now + REFRESH_TTL_SECS <= u64::MAX,
        ensures
            ({
                let pr = parse_result(*token, TokenType::Refresh, false, now, self.secret);
                let s = self.accounts.accounts@;
                &&& pr is Err ==> r == Err::<TokenPair, AuthError>(pr->Err_0)
                &&& pr is Ok && !has_id(s, pr->Ok_0.sub) ==> r == Err::<TokenPair, AuthError>(
                    AuthError::WrongCredentials,
                )
                &&& pr is Ok && has_id(s, pr->Ok_0.sub) ==> exists|i: int|
                    (0 <= i < s.len() && #[trigger] s[i].account_id == pr->Ok_0.sub && r == Ok::<
                        TokenPair,
                        AuthError,
                    >(issue_spec(s[i], now, self.secret)))
            }),
    {
        let claims = match parse(token, TokenType::Refresh, false, now, self.secret) {
            Ok(c) => c,
            Err(e) => {
                return Err(e);
            },
        };
        let account = match self.accounts.find_by_id(claims.sub) {
            Some(a) => a,
            None => {
                return Err(AuthError::WrongCredentials);
            },
        };
        Ok(issue(&account, now, self.secret))
    }

    /// Send-code step of activation: only an account still `Inactive` (as
    /// its claims snapshot says) may ask for one, else `AlreadyActivated`
    /// with nothing stored. A fresh code is derived from the entropy, stored
    /// under the activation key for `CODE_TTL_SECS` — overwriting any prior
    /// code for that key, every other key untouched — and wrapped in the
    /// notification payload for the claims' email.
    pub fn send_activation_code(&mut self, claims: &Claims, entropy: u64, now: u64) -> (r: Result<
        Email,
        AuthError,
    >)
        requires
            old(self).wf(),
            now + CODE_TTL_SECS <= u64::MAX,
        ensures
            final(self).wf(),
            final(self).accounts == old(self).accounts,
            final(self).secret == old(self).secret,
            claims.status != AccountStatus::Inactive ==> r == Err::<Email, AuthError>(
                AuthError::AlreadyActivated,
            ) && *final(self) == *old(self),
            claims.status == AccountStatus::Inactive ==> r is Ok && ({
                let k = key_of(claims.sub, Purpose::ActivateAccount);
                &&& live_at(final(self).codes@, k, now)
                &&& final(self).codes@[k].code@ == code_of(entropy, CODE_LEN as nat)
                &&& final(self).codes@[k].expires_at == now + CODE_TTL_SECS
                &&& final(self).codes@.remove(k) == old(self).codes@.remove(k)
                &&& r->Ok_0.recipient == claims.email
                &&& r->Ok_0.subject@ == "Active your account"@
                &&& r->Ok_0.body@ == "Active Code: "@ + code_of(entropy, CODE_LEN as nat)
            }),
    {
        if !matches!(claims.status, AccountStatus::Inactive) {
            return Err(AuthError::AlreadyActivated);
        }
        let code = generate_code(entropy, CODE_LEN);
        self.codes.put(claims.sub, Purpose::ActivateAccount, &code, now, CODE_TTL_SECS);
        let mut body = String::from_str("Active Code: ");
        body.append(code.as_str());
        proof {
            let k = key_of(claims.sub, Purpose::ActivateAccount);
            assert(self.codes@.remove(k) =~= old(self).codes@.remove(k));
        }
        Ok(
            Email {
                recipient: claims.email.clone(),
                subject: String::from_str("Active your account"),
                body,
            },
        )
    }

    /// Send-code step of reset: no status precondition. A fresh code is
    /// derived from the entropy and stored under the reset key — disjoint
    /// from the activation key even for the same subject — for
    /// `CODE_TTL_SECS`, overwriting any prior reset code.
    pub fn send_reset_code(&mut self, claims: &Claims, entropy: u64, now: u64) -> (r: Email)
        requires
            old(self).wf(),
            now + CODE_TTL_SECS <= u64::MAX,
        ensures
            final(self).wf(),
            final(self).accounts == old(self).accounts,
            final(self).secret == old(self).secret,
            ({
                let k = key_of(claims.sub, Purpose::ResetPassword);
                &&& live_at(final(self).codes@, k, now)
                &&& final(self).codes@[k].code@ == code_of(entropy, CODE_LEN as nat)
                &&& final(self).codes@[k].expires_at == now + CODE_TTL_SECS
                &&& final(self).codes@.remove(k) == old(self).codes@.remove(k)
                &&& r.recipient == claims.email
                &&& r.subject@ == "Reset Password"@
                &&& r.body@ == "ResetPassword Code: "@ + code_of(entropy, CODE_LEN as nat)
            }),
    {
        let code = generate_code(entropy, CODE_LEN);
        self.codes.put(claims.sub, Purpose::ResetPassword, &code, now, CODE_TTL_SECS);
        let mut body = String::from_str("ResetPassword Code: ");
        body.append(code.as_str());
        proof {
            let k = key_of(claims.sub, Purpose::ResetPassword);
            assert(self.codes@.remove(k) =~= old(self).codes@.remove(k));
        }
        Email {
            recipient: claims.email.clone(),
            subject: String::from_str("Reset Password"),
            body,
        }
    }

    /// Verify-code step of activation. An account whose claims are no longer
    /// `Inactive` fails `AlreadyActivated`. A live stored code that differs
    /// from the submitted one fails `WrongCode` and the entry stays for a
    /// retry within its time to live. A live matching code commits the
    /// activation mutation — email verified at `now`, status `Active` — and
    /// consumes the entry, closing the replay window. A missing or expired
    /// entry is deliberate leniency: the flow falls through without
    /// mutating. Success re-reads the account and mints a pair reflecting
    /// its current status; a subject with no account fails
    /// `WrongCredentials`.
    pub fn verify_activation_code(&mut self, claims: &Claims, submitted: &String, now: u64) -> (r:
        Result<TokenPair, AuthError>)
        requires
            old(self).wf(),
            now + REFRESH_TTL_SECS <= u64::MAX,
        ensures
            final(self).wf(),
            final(self).secret == old(self).secret,
            final(self).accounts.next_id == old(self).accounts.next_id,
            claims.status != AccountStatus::Inactive ==> r == Err::<TokenPair, AuthError>(
                AuthError::AlreadyActivated,
            ) && *final(self) == *old(self),
            ({
                let k = key_of(claims.sub, Purpose::ActivateAccount);
                let m = old(self).codes@;
                let s0 = old(self).accounts.accounts@;
                let inactive = claims.status == AccountStatus::Inactive;
                &&& inactive && live_at(m, k, now) && m[k].code@ != submitted@ ==> r == Err::<
                    TokenPair,
                    AuthError,
                >(AuthError::WrongCode) && *final(self) == *old(self)
                &&& inactive && live_at(m, k, now) && m[k].code@ == submitted@ ==> ({
                    let s1 = activate_all(s0, claims.sub, now);
                    &&& final(self).accounts.accounts@ == s1
                    &&& final(self).codes@ == m.remove(k)
                    &&& !has_id(s1, claims.sub) ==> r == Err::<TokenPair, AuthError>(
                        AuthError::WrongCredentials,
                    )
                    &&& has_id(s1, claims.sub) ==> exists|i: int|
                        0 <= i < s1.len() && #[trigger] s1[i].account_id == claims.sub && r
                            == Ok::<TokenPair, AuthError>(
                            issue_spec(s1[i], now, old(self).secret),
                        )
                })
                &&& inactive && !live_at(m, k, now) ==> ({
                    &&& final(self).accounts.accounts@ == s0
                    &&& !has_id(s0, claims.sub) ==> r == Err::<TokenPair, AuthError>(
                        AuthError::WrongCredentials,
                    ) && final(self).codes@ == m
                    &&& has_id(s0, claims.sub) ==> final(self).codes@ == m.remove(k) && exists|
                        i: int,
                    |
                        0 <= i < s0.len() && #[trigger] s0[i].account_id == claims.sub && r
                            == Ok::<TokenPair, AuthError>(
                            issue_spec(s0[i], now, old(self).secret),
                        )
                })
            }),
    {
        if !matches!(claims.status, AccountStatus::Inactive) {
            return Err(AuthError::AlreadyActivated);
        }
        match self.codes.get(claims.sub, Purpose::ActivateAccount, now) {
            Some(stored) => {
                if stored.eq(submitted) {
                    let _affected = self.accounts.update_email_verified(claims.sub, now);
                    self.codes.delete(claims.sub, Purpose::ActivateAccount);
                } else {
                    return Err(AuthError::WrongCode);
                }
            },
            None => {},
        }
        let account = match self.accounts.find_by_id(claims.sub) {
            Some(a) => a,
            None => {
                return Err(AuthError::WrongCredentials);
            },
        };
        let pair = issue(&account, now, self.secret);
        self.codes.delete(claims.sub, Purpose::ActivateAccount);
        proof {
            let k = key_of(claims.sub, Purpose::ActivateAccount);
            assert(self.codes@ =~= old(self).codes@.remove(k));
        }
        Ok(pair)
    }

    /// Verify-code step of reset. A live stored reset code that differs from
    /// the submitted one fails `WrongCode`, keeping the entry for a retry. A
    /// live matching code hashes the new password under the given salt,
    /// overwrites the account's credential, and consumes the entry. A
    /// missing or expired entry falls through as a success without touching
    /// any password — the same leniency as activation. Only an
    /// acknowledgment comes back, never a token.
    pub fn reset_password(
        &mut self,
        claims: &Claims,
        code: &String,
        new_password: &String,
        salt: u64,
        now: u64,
    ) -> (r: Result<(), AuthError>)
        requires
            old(self).wf(),
        ensures
            final(self).wf(),
            final(self).secret == old(self).secret,
            final(self).accounts.next_id == old(self).accounts.next_id,
            ({
                let k = key_of(claims.sub, Purpose::ResetPassword);
                let m = old(self).codes@;
                let s0 = old(self).accounts.accounts@;
                &&& live_at(m, k, now) && m[k].code@ != code@ ==> r == Err::<(), AuthError>(
                    AuthError::WrongCode,
                ) && *final(self) == *old(self)
                &&& live_at(m, k, now) && m[k].code@ == code@ ==> r == Ok::<(), AuthError>(())
                    && final(self).accounts.accounts@ == set_password_all(
                    s0,
                    claims.sub,
                    spec_hash(new_password@, salt),
                ) && final(self).codes@ == m.remove(k)
                &&& !live_at(m, k, now) ==> r == Ok::<(), AuthError>(()) && *final(self) == *old(
                    self,
                )
            }),
    {
        match self.codes.get(claims.sub, Purpose::ResetPassword, now) {
            Some(stored) => {
                if stored.eq(code) {
                    let h = hash_password(new_password.as_str(), salt);
                    let _affected = self.accounts.update_password_hash(claims.sub, h);
                    self.codes.delete(claims.sub, Purpose::ResetPassword);
                    Ok(())
                } else {
                    Err(AuthError::WrongCode)
                }
            },
            None => Ok(()),
        }
    }
}

/// A successful login authorizes its holder: the pair minted for the
/// matching account carries an access token that parses as a valid,
/// non-expired access token whose subject is that account's id — exactly
/// what the authentication gate checks on every protected request.
pub proof fn lemma_login_token_authorizes(
    s: Seq<Account>,
    ident: Seq<char>,
    password: Seq<char>,
    i: int,
    now: u64,
    secret: u64,
)
    requires
        login_ok_at(s, ident, password, i),
        now + REFRESH_TTL_SECS <= u64::MAX,
    ensures
        ({
            let pair = issue_spec(s[i], now, secret);
            &&& parse_result(pair.access, TokenType::Access, false, now, secret) == Ok::<
                Claims,
                AuthError,
            >(pair.access.claims)
            &&& pair.access.claims.sub == s[i].account_id
            &&& pair.access.claims.email == s[i].email
            &&& pair.access.claims.status == s[i].status
        }),
{
    crate::token::lemma_issue_then_parse_access(s[i], now, now, secret, false);
}

} // verus!
