//! Accounts and signing in: bcrypt password hashes, the decision taken on
//! a login attempt, and the initial lab manager account.
use vstd::prelude::*;
use vstd::string::*;

use crate::audit::AuditEvent;
use crate::models::{Role, User};

verus! {

#[verifier::external_type_specification]
#[verifier::external_body]
pub struct ExBcryptError(bcrypt::BcryptError);

/// What `bcrypt::verify(password, hash)` returns: `Some(b)` for `Ok(b)`,
/// `None` for an error (a hash that is not a well-formed bcrypt hash).
pub uninterp spec fn bcrypt_verify_outcome(password: Seq<char>, hash: Seq<char>) -> Option<bool>;

/// Trusted: `bcrypt::verify`, with its error (a malformed hash) given as
/// `None`. Its result is a function of the password and the hash alone (the
/// salt and cost are read from the hash), named by `bcrypt_verify_outcome`.
#[verifier::external_body]
fn bcrypt_verify(password: &str, hash: &str) -> (r: Option<bool>)
    ensures
        r == bcrypt_verify_outcome(password@, hash@),
{
    bcrypt::verify(password, hash).ok()
}

/// Trusted: `bcrypt::hash` at `bcrypt::DEFAULT_COST`. The salt is random,
/// so the hash itself is left open; the contract claims what the source
/// shows of every outcome: verifying the same password against the hash
/// yields `Ok(true)` (`verify` reads the version, cost and salt back from the
/// hash and repeats the same bcrypt computation). The call fails only when
/// the system gives no random bytes; when that happens is not stated.
#[verifier::external_body]
fn bcrypt_hash(password: &str) -> (r: Result<String, bcrypt::BcryptError>)
    ensures
        r matches Ok(h) ==> bcrypt_verify_outcome(password@, h@) == Some(true),
{
    bcrypt::hash(password, bcrypt::DEFAULT_COST)
}

/// A password is accepted for a stored hash when bcrypt verifies it;
/// a malformed hash accepts nothing.
pub open spec fn password_matches(password: Seq<char>, hash: Seq<char>) -> bool {
    bcrypt_verify_outcome(password, hash) == Some(true)
}

/// Hashing a password failed; it carries the error that `bcrypt::hash`
/// returned (the system gave no random salt).
///
/// The only `bcrypt::BcryptError` that reaches the library comes from
/// `bcrypt_hash`, and the type cannot be built in any other way, so every
/// `HashingFailed` stands for a failed call of `bcrypt::hash`: no function
/// here can refuse a password, a user name, or anything else with it.
#[derive(Debug)]
pub struct HashingFailed {
    cause: bcrypt::BcryptError,
}

/// Whether `password` is accepted for the stored `hash`.
pub fn password_matches_hash(password: &str, hash: &str) -> (r: bool)
    ensures
        r == password_matches(password@, hash@),
{
    match bcrypt_verify(password, hash) {
        Some(b) => b,
        None => false,
    }
}

/// A fresh bcrypt hash of `password`, which accepts `password`. It fails
/// only with the error of `bcrypt::hash` itself (see `HashingFailed`),
/// whatever the password.
pub fn hash_password(password: &str) -> (r: Result<String, HashingFailed>)
    ensures
        r matches Ok(h) ==> password_matches(password@, h@),
{
    match bcrypt_hash(password) {
        Ok(h) => Ok(h),
        Err(cause) => Err(HashingFailed { cause }),
    }
}

/// An account ready to be stored.
#[derive(Debug, Clone)]
pub struct NewUser {
    pub username: String,
    pub password_hash: String,
    pub role: Role,
}

/// The account a lab manager creates: always an assistant, with a hash
/// that accepts `password`. Any user name is taken as given; the only
/// failure is that of hashing the password (see `HashingFailed`).
pub fn assistant_account(username: &str, password: &str) -> (r: Result<NewUser, HashingFailed>)
    ensures
        r matches Ok(u) ==> {
            &&& u.username@ == username@
            &&& u.role == Role::Assistant
            &&& password_matches(password@, u.password_hash@)
        },
{
    match hash_password(password) {
        Ok(h) => Ok(NewUser { username: username.to_owned(), password_hash: h, role: Role::Assistant }),
        Err(e) => Err(e),
    }
}

/// The name, and the password, of the initial lab manager.
pub open spec fn seed_name() -> Seq<char> {
    "pushnyavka"@
}

/// The initial lab manager account, which is created only when there are
/// no users at all: `None` when `user_count` is not zero.
pub fn seed_account(user_count: i64) -> (r: Option<Result<NewUser, HashingFailed>>)
    ensures
        r is None <==> user_count != 0,
        r matches Some(Ok(u)) ==> {
            &&& u.username@ == seed_name()
            &&& u.role == Role::LabManager
            &&& password_matches(seed_name(), u.password_hash@)
        },
{
    if user_count != 0 {
        return None;
    }
    let name = "pushnyavka";
    match hash_password(name) {
        Ok(h) => Some(Ok(NewUser { username: name.to_owned(), password_hash: h, role: Role::LabManager })),
        Err(e) => Some(Err(e)),
    }
}

/// The stored account found for a user name: its id, password hash, and
/// role.
pub type UserRecord = (i64, String, Role);

/// Whether a login with `password` succeeds against the account found
/// (none when the name is unknown or the lookup failed).
pub open spec fn login_succeeds(password: Seq<char>, found: Option<UserRecord>) -> bool {
    match found {
        Some((_, hash, _)) => password_matches(password, hash@),
        None => false,
    }
}

/// The account that a lookup result stands for: a failed lookup counts as
/// an unknown name.
pub open spec fn found_account<E>(lookup: Result<Option<UserRecord>, E>) -> Option<UserRecord> {
    match lookup {
        Ok(found) => found,
        Err(_) => None,
    }
}

/// What a login attempt comes to: the signed-in user, if any, and the
/// audit event to record with the id of the account it concerns.
pub struct LoginOutcome {
    pub user: Option<User>,
    pub audit: Option<(i64, AuditEvent)>,
}

/// Decides a login attempt of `username` with `password`, given what the
/// lookup of `username` returned.
///
/// An unknown name (or a failed lookup) signs nobody in and records
/// nothing. A known name signs in exactly when bcrypt accepts the password,
/// and records `USER_LOGIN` or `USER_LOGIN_FAIL` for that account.
pub fn login_decision<E>(
    username: &str,
    password: &str,
    lookup: Result<Option<UserRecord>, E>,
) -> (r: LoginOutcome)
    ensures
        r.user is Some <==> login_succeeds(password@, found_account(lookup)),
        match found_account(lookup) {
            Some((id, _, role)) => {
                &&& r.user matches Some(u) ==> u.id == id && u.username@ == username@ && u.role
                    == role
                &&& r.audit matches Some((uid, ev)) && uid == id && if login_succeeds(
                    password@,
                    found_account(lookup),
                ) {
                    ev matches AuditEvent::UserLogin { username: n } && n@ == username@
                } else {
                    ev matches AuditEvent::UserLoginFail { username: n } && n@ == username@
                }
            },
            None => r.audit is None,
        },
{
    let found = match lookup {
        Ok(f) => f,
        Err(_) => None,
    };
    match found {
        None => LoginOutcome { user: None, audit: None },
        Some((id, hash, role)) => {
            if password_matches_hash(password, hash.as_str()) {
                LoginOutcome {
                    user: Some(User { id, username: username.to_owned(), role }),
                    audit: Some((id, AuditEvent::UserLogin { username: username.to_owned() })),
                }
            } else {
                LoginOutcome {
                    user: None,
                    audit: Some((id, AuditEvent::UserLoginFail { username: username.to_owned() })),
                }
            }
        },
    }
}

// ---------------------------------------------------------------------------
// Laws
// ---------------------------------------------------------------------------

/// An account whose hash was made from a password (as `hash_password`,
/// `assistant_account` and `seed_account` make it) can be signed in to with
/// that password.
pub proof fn law_login_accepts_password_it_was_created_with(
    password: Seq<char>,
    id: i64,
    hash: String,
    role: Role,
)
    requires
        password_matches(password, hash@),
    ensures
        login_succeeds(password, Some((id, hash, role))),
{
}

/// The initial account signs in as a lab manager with the name and
/// password `pushnyavka`.
pub proof fn law_seed_account_signs_in(id: i64, account: NewUser)
    requires
        account.username@ == seed_name(),
        account.role == Role::LabManager,
        password_matches(seed_name(), account.password_hash@),
    ensures
        login_succeeds(seed_name(), Some((id, account.password_hash, account.role))),
        account.role == Role::LabManager,
{
}

} // verus!
