use auth_core::account::AccountStatus;
use auth_core::crypto::generate_code;
use auth_core::errors::AuthError;
use auth_core::flows::{AuthCore, CODE_TTL_SECS};
use auth_core::notify::dispatch_outcome;
use auth_core::store::{CodeStore, Purpose};
use auth_core::token::{parse, Claims, TokenType};

const SECRET: u64 = 424242;

fn registered_core() -> AuthCore {
    let mut core = AuthCore::new(SECRET);
    core.register(
        &String::from("alice@example.com"),
        &String::from("alice"),
        &String::from("open sesame"),
        77,
    )
    .unwrap();
    core
}

fn claims_of(core: &AuthCore, sub: u64, status: AccountStatus) -> Claims {
    let account = core.accounts.find_by_id(sub).unwrap();
    Claims {
        sub,
        email: account.email,
        status,
        token_type: TokenType::Access,
        iat: 0,
        exp: 900,
    }
}

#[test]
fn register_creates_inactive_account_with_verifying_hash() {
    let mut core = AuthCore::new(SECRET);
    let account = core
        .register(
            &String::from("bob@example.com"),
            &String::from("bob"),
            &String::from("pa55word"),
            3,
        )
        .unwrap();
    assert_eq!(account.status, AccountStatus::Inactive);
    assert_eq!(account.email, "bob@example.com");
    assert_eq!(account.name, "bob");
    assert!(account.email_verified_at.is_none());
    assert!(auth_core::crypto::verify_password(&account.password_hash, "pa55word"));
    assert!(!auth_core::crypto::verify_password(&account.password_hash, "password"));
}

#[test]
fn register_duplicate_email_fails_and_mutates_nothing() {
    let mut core = registered_core();
    let err = core
        .register(
            &String::from("alice@example.com"),
            &String::from("someone else"),
            &String::from("other password"),
            5,
        )
        .unwrap_err();
    assert_eq!(err, AuthError::UserAlreadyExists);
    assert_eq!(core.accounts.accounts.len(), 1);
    // the first account still logs in with its own password
    let (_, account) = core
        .login(&String::from("alice@example.com"), &String::from("open sesame"), 10)
        .unwrap();
    assert_eq!(account.name, "alice");
}

#[test]
fn login_issues_pair_whose_access_token_names_the_account() {
    let mut core = registered_core();
    let (pair, account) = core
        .login(&String::from("alice"), &String::from("open sesame"), 500)
        .unwrap();
    let claims = parse(&pair.access, TokenType::Access, false, 500, SECRET).unwrap();
    assert_eq!(claims.sub, account.account_id);
    assert_eq!(claims.email, "alice@example.com");
    // last login was stamped
    let stored = core.accounts.find_by_id(account.account_id).unwrap();
    assert_eq!(stored.last_login, 500);
}

#[test]
fn login_with_wrong_password_exhausts_candidates_before_failing() {
    let mut core = AuthCore::new(SECRET);
    // two accounts share the display name; only the second knows this password
    core.register(
        &String::from("a@example.com"),
        &String::from("twin"),
        &String::from("first secret"),
        1,
    )
    .unwrap();
    core.register(
        &String::from("b@example.com"),
        &String::from("twin"),
        &String::from("second secret"),
        2,
    )
    .unwrap();
    let (_, account) = core
        .login(&String::from("twin"), &String::from("second secret"), 9)
        .unwrap();
    assert_eq!(account.email, "b@example.com");
    let err = core
        .login(&String::from("twin"), &String::from("no such secret"), 9)
        .unwrap_err();
    assert_eq!(err, AuthError::WrongCredentials);
    let err = core
        .login(&String::from("nobody"), &String::from("second secret"), 9)
        .unwrap_err();
    assert_eq!(err, AuthError::WrongCredentials);
}

#[test]
fn refresh_mints_a_new_pair_from_a_refresh_token_only() {
    let mut core = registered_core();
    let (pair, account) = core
        .login(&String::from("alice"), &String::from("open sesame"), 100)
        .unwrap();
    let new_pair = core.refresh(&pair.refresh, 200).unwrap();
    let claims = parse(&new_pair.access, TokenType::Access, false, 200, SECRET).unwrap();
    assert_eq!(claims.sub, account.account_id);
    assert_eq!(claims.iat, 200);
    // an access token is no good for refreshing
    let err = core.refresh(&pair.access, 200).unwrap_err();
    assert_eq!(err, AuthError::WrongTokenType);
    // an expired refresh token is rejected, not tolerated
    let much_later = 100 + auth_core::token::REFRESH_TTL_SECS + 1;
    let err = core.refresh(&pair.refresh, much_later).unwrap_err();
    assert_eq!(err, AuthError::TokenExpired);
}

#[test]
fn code_store_holds_one_expiring_cell_per_key() {
    let mut store = CodeStore::new();
    store.put(7, Purpose::ActivateAccount, &String::from("AB12CD"), 0, 300);
    assert_eq!(store.get(7, Purpose::ActivateAccount, 10), Some(String::from("AB12CD")));
    // the reset key of the same subject is a different cell
    assert_eq!(store.get(7, Purpose::ResetPassword, 10), None);
    // expiry hides the entry
    assert_eq!(store.get(7, Purpose::ActivateAccount, 299), Some(String::from("AB12CD")));
    assert_eq!(store.get(7, Purpose::ActivateAccount, 300), None);
    // a second put overwrites, never appends
    store.put(7, Purpose::ActivateAccount, &String::from("ZZ9999"), 10, 300);
    assert_eq!(store.get(7, Purpose::ActivateAccount, 20), Some(String::from("ZZ9999")));
    // delete is idempotent
    store.delete(7, Purpose::ActivateAccount);
    store.delete(7, Purpose::ActivateAccount);
    assert_eq!(store.get(7, Purpose::ActivateAccount, 20), None);
}

#[test]
fn verifying_the_stored_code_succeeds_once_and_consumes_it() {
    let mut store = CodeStore::new();
    store.put(7, Purpose::ActivateAccount, &String::from("AB12CD"), 0, 300);
    let stored = store.get(7, Purpose::ActivateAccount, 10).unwrap();
    assert_eq!(stored, "AB12CD");
    store.delete(7, Purpose::ActivateAccount);
    assert_eq!(store.get(7, Purpose::ActivateAccount, 11), None);
}

#[test]
fn activation_flow_activates_account_and_returns_tokens() {
    let mut core = registered_core();
    let claims = claims_of(&core, 0, AccountStatus::Inactive);
    let entropy = 123_456_789;
    let email = core.send_activation_code(&claims, entropy, 50).unwrap();
    assert_eq!(email.recipient, "alice@example.com");
    assert_eq!(email.subject, "Active your account");
    let code = generate_code(entropy, 6);
    assert_eq!(email.body, format!("Active Code: {}", code));
    // publish outcome mapping
    assert_eq!(dispatch_outcome(true), Ok(()));
    assert_eq!(dispatch_outcome(false), Err(AuthError::NotificationFailed));

    let pair = core.verify_activation_code(&claims, &code, 60).unwrap();
    let new_claims = parse(&pair.access, TokenType::Access, false, 60, SECRET).unwrap();
    assert_eq!(new_claims.status, AccountStatus::Active);
    let account = core.accounts.find_by_id(0).unwrap();
    assert_eq!(account.status, AccountStatus::Active);
    assert_eq!(account.email_verified_at, Some(60));
    // the code was consumed
    assert_eq!(core.codes.get(0, Purpose::ActivateAccount, 61), None);
}

#[test]
fn wrong_code_fails_and_leaves_the_entry_for_a_retry() {
    let mut core = registered_core();
    let claims = claims_of(&core, 0, AccountStatus::Inactive);
    let entropy = 5_000;
    core.send_activation_code(&claims, entropy, 0).unwrap();
    let err = core
        .verify_activation_code(&claims, &String::from("ZZ9999"), 10)
        .unwrap_err();
    assert_eq!(err, AuthError::WrongCode);
    // the entry is intact, so the correct attempt within the ttl still works
    let code = generate_code(entropy, 6);
    assert_ne!(code, "ZZ9999");
    core.verify_activation_code(&claims, &code, 20).unwrap();
    let account = core.accounts.find_by_id(0).unwrap();
    assert_eq!(account.status, AccountStatus::Active);
}

#[test]
fn verify_with_no_live_code_falls_through_to_fresh_tokens() {
    let mut core = registered_core();
    let claims = claims_of(&core, 0, AccountStatus::Inactive);
    // never sent: falls through, account stays inactive, tokens still come
    let pair = core.verify_activation_code(&claims, &String::from("AB12CD"), 10).unwrap();
    let got = parse(&pair.access, TokenType::Access, false, 10, SECRET).unwrap();
    assert_eq!(got.status, AccountStatus::Inactive);
    // sent but expired: same leniency
    let entropy = 42;
    core.send_activation_code(&claims, entropy, 100).unwrap();
    let code = generate_code(entropy, 6);
    let pair = core
        .verify_activation_code(&claims, &code, 100 + CODE_TTL_SECS)
        .unwrap();
    let got = parse(&pair.access, TokenType::Access, false, 100 + CODE_TTL_SECS, SECRET).unwrap();
    assert_eq!(got.status, AccountStatus::Inactive);
    assert_eq!(core.accounts.find_by_id(0).unwrap().status, AccountStatus::Inactive);
}

#[test]
fn send_activation_code_on_active_account_fails_and_stores_nothing() {
    let mut core = registered_core();
    let inactive_claims = claims_of(&core, 0, AccountStatus::Inactive);
    let code = generate_code(9, 6);
    core.send_activation_code(&inactive_claims, 9, 0).unwrap();
    core.verify_activation_code(&inactive_claims, &code, 1).unwrap();
    let active_claims = claims_of(&core, 0, AccountStatus::Active);
    let err = core.send_activation_code(&active_claims, 10, 2).unwrap_err();
    assert_eq!(err, AuthError::AlreadyActivated);
    assert_eq!(core.codes.get(0, Purpose::ActivateAccount, 3), None);
    // and a second verify under Active claims is refused the same way
    let err = core
        .verify_activation_code(&active_claims, &code, 3)
        .unwrap_err();
    assert_eq!(err, AuthError::AlreadyActivated);
}

#[test]
fn duplicate_activation_apply_is_harmless() {
    // two racing verifications both saw the code: applying the mutation
    // twice leaves the account Active, not an error
    let mut core = registered_core();
    let claims = claims_of(&core, 0, AccountStatus::Inactive);
    let entropy = 31_337;
    let code = generate_code(entropy, 6);
    core.send_activation_code(&claims, entropy, 0).unwrap();
    core.verify_activation_code(&claims, &code, 1).unwrap();
    // the racing request still holds stale Inactive claims and the same code
    core.codes.put(0, Purpose::ActivateAccount, &code, 1, CODE_TTL_SECS);
    core.verify_activation_code(&claims, &code, 2).unwrap();
    let account = core.accounts.find_by_id(0).unwrap();
    assert_eq!(account.status, AccountStatus::Active);
    assert_eq!(account.email_verified_at, Some(2));
}

#[test]
fn reset_flow_overwrites_the_password_once() {
    let mut core = registered_core();
    let claims = claims_of(&core, 0, AccountStatus::Inactive);
    let entropy = 777;
    let email = core.send_reset_code(&claims, entropy, 0);
    assert_eq!(email.recipient, "alice@example.com");
    assert_eq!(email.subject, "Reset Password");
    let code = generate_code(entropy, 6);
    assert_eq!(email.body, format!("ResetPassword Code: {}", code));

    // wrong code: refused, entry kept
    let err = core
        .reset_password(&claims, &String::from("ZZ9999"), &String::from("new pw"), 8, 10)
        .unwrap_err();
    assert_eq!(err, AuthError::WrongCode);
    // right code: password overwritten, entry consumed
    core.reset_password(&claims, &code, &String::from("new pw"), 8, 20).unwrap();
    assert!(core.login(&String::from("alice"), &String::from("open sesame"), 30).is_err());
    core.login(&String::from("alice"), &String::from("new pw"), 30).unwrap();
    // with the entry consumed, a replay falls through without mutating
    core.reset_password(&claims, &code, &String::from("third pw"), 8, 40).unwrap();
    core.login(&String::from("alice"), &String::from("new pw"), 50).unwrap();
    assert!(core.login(&String::from("alice"), &String::from("third pw"), 50).is_err());
}

#[test]
fn reset_and_activation_codes_do_not_mix() {
    let mut core = registered_core();
    let claims = claims_of(&core, 0, AccountStatus::Inactive);
    core.send_reset_code(&claims, 1_000, 0);
    // a reset code cannot activate: the activation cell is empty, so the
    // verify falls through without activating
    let reset_code = generate_code(1_000, 6);
    core.verify_activation_code(&claims, &reset_code, 5).unwrap();
    assert_eq!(core.accounts.find_by_id(0).unwrap().status, AccountStatus::Inactive);
    // and the reset cell is still intact
    assert_eq!(
        core.codes.get(0, Purpose::ResetPassword, 5),
        Some(reset_code)
    );
}

#[test]
fn repository_lookups_find_by_email_name_and_id() {
    let mut core = AuthCore::new(SECRET);
    core.register(
        &String::from("x@example.com"),
        &String::from("xavier"),
        &String::from("pw x"),
        1,
    )
    .unwrap();
    core.register(
        &String::from("y@example.com"),
        &String::from("xavier"),
        &String::from("pw y"),
        2,
    )
    .unwrap();
    assert!(core.accounts.exists_by_email(&String::from("x@example.com")));
    assert!(!core.accounts.exists_by_email(&String::from("z@example.com")));
    let found = core.accounts.find_by_email(&String::from("y@example.com")).unwrap();
    assert_eq!(found.account_id, 1);
    assert!(core.accounts.find_by_email(&String::from("xavier")).is_none());
    let by_name = core.accounts.find_by_email_or_name(&String::from("xavier"));
    assert_eq!(by_name.len(), 2);
    assert_eq!(by_name[0].account_id, 0);
    assert_eq!(by_name[1].account_id, 1);
    let by_email = core.accounts.find_by_email_or_name(&String::from("x@example.com"));
    assert_eq!(by_email.len(), 1);
    assert!(core.accounts.find_by_id(2).is_none());
}
