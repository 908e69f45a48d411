use vstd::prelude::*;

use crate::error::AccessError;
use crate::jwt::{issuable, issue_session, issued_token, TokenSettings};
use crate::roles::{RolesEnum, StatusEnum};
use crate::users::{User, UserModel};

verus! {

/// Login credentials.
pub struct LogIn {
    pub email: String,
    pub password: String,
}

/// The answer to a successful login or registration.
pub struct LogedIn {
    pub token: String,
}

/// Registration details.
pub struct RegisterUser {
    pub name: String,
    pub last_name: String,
    pub email: String,
    pub password: String,
}

/// An account to insert into the credential store.
pub struct NewUser {
    pub name: String,
    pub last_name: String,
    pub email: String,
    pub password_hash: String,
    pub role: RolesEnum,
    pub status: StatusEnum,
}

/// Whether `password` hashes to the stored digest `hash`.
pub uninterp spec fn password_matches(password: Seq<char>, hash: Seq<char>) -> bool;

/// Whether every character of a stored digest is printable ASCII, as the
/// digests that pwhash writes are.
pub open spec fn printable_digest(hash: Seq<char>) -> bool {
    forall|i: int| 0 <= i < hash.len() ==> ' ' <= #[trigger] hash[i] <= '~'
}

/// Whether every character of `hash` is printable ASCII.
pub fn is_printable_digest(hash: &str) -> (r: bool)
    ensures
        r == printable_digest(hash@),
{
    let n = hash.unicode_len();
    let mut i: usize = 0;
    while i < n
        invariant
            n == hash@.len(),
            i <= n,
            forall|k: int| 0 <= k < i ==> ' ' <= #[trigger] hash@[k] <= '~',
        decreases n - i,
    {
        let c = hash.get_char(i);
        if c < ' ' || c > '~' {
            return false;
        }
        i = i + 1;
    }
    true
}

/// Relies on pwhash::unix::verify: recomputes the digest with the scheme and
/// salt that `hash` names; the answer depends on the two strings alone. Its
/// base-64 decoding indexes a table by character and fails on characters
/// outside printable ASCII, so such digests are left out.
#[verifier::external_body]
fn check_password(password: &str, hash: &str) -> (r: bool)
    requires
        printable_digest(hash@),
    ensures
        r == password_matches(password@, hash@),
{
    pwhash::unix::verify(password, hash)
}

/// Relies on pwhash::bcrypt::hash: a bcrypt digest with a fresh random salt,
/// which always succeeds, and which pwhash::unix::verify accepts for the same
/// password since it reads the salt and cost back from the digest.
#[verifier::external_body]
fn hash_password(password: &str) -> (r: Option<String>)
    ensures
        r is Some,
        r matches Some(h) ==> password_matches(password@, h@),
{
    pwhash::bcrypt::hash(password).ok()
}

/// The two login entry points and the roles that each admits.
#[derive(Clone, Copy, Debug, PartialEq, Eq, Structural)]
pub enum LoginPortal {
    /// Plain users.
    Users,
    /// Restaurant owners and administrators.
    Owners,
}

pub open spec fn portal_admits(portal: LoginPortal, role: RolesEnum) -> bool {
    match portal {
        LoginPortal::Users => role == RolesEnum::User,
        LoginPortal::Owners => role == RolesEnum::RestaurantOwner || role == RolesEnum::Admin,
    }
}

/// Whether `account` is one that `portal` looks up for the login identifier `email`.
pub open spec fn login_candidate(account: UserModel, email: Seq<char>, portal: LoginPortal) -> bool {
    account.email@ == email && portal_admits(portal, account.role)
}

/// Whether `accounts[i]` is the first candidate for `email` on `portal`.
pub open spec fn first_candidate(
    accounts: Seq<UserModel>,
    email: Seq<char>,
    portal: LoginPortal,
    i: int,
) -> bool {
    &&& 0 <= i < accounts.len()
    &&& login_candidate(accounts[i], email, portal)
    &&& forall|k: int| 0 <= k < i ==> !login_candidate(#[trigger] accounts[k], email, portal)
}

pub open spec fn has_candidate(accounts: Seq<UserModel>, email: Seq<char>, portal: LoginPortal) -> bool {
    exists|i: int| 0 <= i < accounts.len() && login_candidate(#[trigger] accounts[i], email, portal)
}

/// What a login answers for the account `a` that the portal picked: a
/// refusal unless its digest is well-formed and the password matches it,
/// else a session token for `a`, which fails only where the token lifetime
/// cannot give an expiry at some time after the epoch.
pub open spec fn account_login_outcome(
    a: UserModel,
    dto: LogIn,
    settings: TokenSettings,
    r: Result<LogedIn, AccessError>,
) -> bool {
    if !printable_digest(a.password_hash@) || !password_matches(dto.password@, a.password_hash@) {
        r == Err::<LogedIn, AccessError>(AccessError::BadLogin)
    } else {
        match r {
            Ok(l) => exists|now: i64| issued_token(l.token@, a.user_id, a.role, settings, now as int),
            Err(e) => e == AccessError::UpstreamFailure && exists|now: i64|
                now >= 0 && !#[trigger] issuable(settings, now as int),
        }
    }
}

/// What a login answers, given the accounts that the store holds under the
/// identifier: the first one that the portal admits is checked against the
/// password, and on a match a session token is issued for it.
pub open spec fn login_outcome(
    accounts: Seq<UserModel>,
    dto: LogIn,
    portal: LoginPortal,
    settings: TokenSettings,
    r: Result<LogedIn, AccessError>,
) -> bool {
    if !has_candidate(accounts, dto.email@, portal) {
        r == Err::<LogedIn, AccessError>(AccessError::BadLogin)
    } else {
        exists|i: int|
            #[trigger] first_candidate(accounts, dto.email@, portal, i) && account_login_outcome(
                accounts[i],
                dto,
                settings,
                r,
            )
    }
}

fn login_on(portal: LoginPortal, login_dto: &LogIn, accounts: &Vec<UserModel>, settings: &TokenSettings) -> (r:
    Result<LogedIn, AccessError>)
    ensures
        login_outcome(accounts@, *login_dto, portal, *settings, r),
{
    let mut i: usize = 0;
    while i < accounts.len()
        invariant
            i <= accounts@.len(),
            forall|k: int|
                0 <= k < i ==> !login_candidate(#[trigger] accounts@[k], login_dto.email@, portal),
        decreases accounts@.len() - i,
    {
        let a = &accounts[i];
        let admitted = match portal {
            LoginPortal::Users => a.role == RolesEnum::User,
            LoginPortal::Owners => a.role == RolesEnum::RestaurantOwner || a.role == RolesEnum::Admin,
        };
        if admitted && a.email == login_dto.email {
            assert(first_candidate(accounts@, login_dto.email@, portal, i as int));
            let r = if !is_printable_digest(a.password_hash.as_str()) || !check_password(
                login_dto.password.as_str(),
                a.password_hash.as_str(),
            ) {
                Err(AccessError::BadLogin)
            } else {
                match issue_session(a.user_id, a.role, settings) {
                    Ok(token) => {
                        let ghost now = choose|now: i64|
                            issued_token(token@, a.user_id, a.role, *settings, now as int);
                        let r = Ok(LogedIn { token });
                        assert(issued_token(r->Ok_0.token@, a.user_id, a.role, *settings, now as int));
                        r
                    },
                    Err(e) => Err(e),
                }
            };
            assert(account_login_outcome(accounts@[i as int], *login_dto, *settings, r));
            return r;
        }
        i = i + 1;
    }
    Err(AccessError::BadLogin)
}

/// Login of a plain user.
pub fn login(login_dto: &LogIn, accounts: &Vec<UserModel>, settings: &TokenSettings) -> (r: Result<
    LogedIn,
    AccessError,
>)
    ensures
        login_outcome(accounts@, *login_dto, LoginPortal::Users, *settings, r),
{
    login_on(LoginPortal::Users, login_dto, accounts, settings)
}

/// Login of a restaurant owner or an administrator.
pub fn login_restaurant_owner(login_dto: &LogIn, accounts: &Vec<UserModel>, settings: &TokenSettings) -> (r:
    Result<LogedIn, AccessError>)
    ensures
        login_outcome(accounts@, *login_dto, LoginPortal::Owners, *settings, r),
{
    login_on(LoginPortal::Owners, login_dto, accounts, settings)
}

/// Whether the store already holds an account in `role` under `email`.
pub open spec fn registered_as(existing: Seq<User>, email: Seq<char>, role: RolesEnum) -> bool {
    exists|i: int|
        0 <= i < existing.len() && (#[trigger] existing[i]).email@ == email && existing[i].role
            == role
}

/// What a registration in `role` answers: a conflict if the identifier is
/// taken in that role, else the account to insert, pending, with a digest
/// that the password verifies against.
pub open spec fn registration_outcome(
    existing: Seq<User>,
    dto: RegisterUser,
    role: RolesEnum,
    r: Result<NewUser, AccessError>,
) -> bool {
    if registered_as(existing, dto.email@, role) {
        r matches Err(AccessError::AlreadyRegistered(id)) && id@ == dto.email@
    } else {
        &&& r is Ok
        &&& r->Ok_0.name@ == dto.name@
        &&& r->Ok_0.last_name@ == dto.last_name@
        &&& r->Ok_0.email@ == dto.email@
        &&& r->Ok_0.role == role
        &&& r->Ok_0.status == StatusEnum::Pending
        &&& password_matches(dto.password@, r->Ok_0.password_hash@)
    }
}

fn register_as(role: RolesEnum, dto: &RegisterUser, existing: &Vec<User>) -> (r: Result<
    NewUser,
    AccessError,
>)
    ensures
        registration_outcome(existing@, *dto, role, r),
{
    let mut i: usize = 0;
    while i < existing.len()
        invariant
            i <= existing@.len(),
            forall|k: int|
                0 <= k < i ==> !((#[trigger] existing@[k]).email@ == dto.email@ && existing@[k].role
                    == role),
        decreases existing@.len() - i,
    {
        if existing[i].role == role && existing[i].email == dto.email {
            return Err(AccessError::AlreadyRegistered(dto.email.clone()));
        }
        i = i + 1;
    }
    match hash_password(dto.password.as_str()) {
        Some(password_hash) => Ok(
            NewUser {
                name: dto.name.clone(),
                last_name: dto.last_name.clone(),
                email: dto.email.clone(),
                password_hash,
                role,
                status: StatusEnum::Pending,
            },
        ),
        None => Err(AccessError::UpstreamFailure),
    }
}

/// Registration of a plain user, given the accounts that the store holds
/// under the identifier.
pub fn register_user(register_user_dto: &RegisterUser, existing: &Vec<User>) -> (r: Result<
    NewUser,
    AccessError,
>)
    ensures
        registration_outcome(existing@, *register_user_dto, RolesEnum::User, r),
{
    register_as(RolesEnum::User, register_user_dto, existing)
}

/// Registration of a restaurant owner, given the accounts that the store
/// holds under the identifier.
pub fn register_restaurant_owner(register_user_dto: &RegisterUser, existing: &Vec<User>) -> (r:
    Result<NewUser, AccessError>)
    ensures
        registration_outcome(existing@, *register_user_dto, RolesEnum::RestaurantOwner, r),
{
    register_as(RolesEnum::RestaurantOwner, register_user_dto, existing)
}

/// The answer to a registration once the store has inserted the account: a
/// session token for it.
pub fn registered(user: &User, settings: &TokenSettings) -> (r: Result<LogedIn, AccessError>)
    ensures
        match r {
            Ok(l) => exists|now: i64| issued_token(l.token@, user.user_id, user.role, *settings, now as int),
            Err(e) => e == AccessError::UpstreamFailure && exists|now: i64|
                now >= 0 && !#[trigger] issuable(*settings, now as int),
        },
{
    match issue_session(user.user_id, user.role, settings) {
        Ok(token) => {
            let ghost now = choose|now: i64|
                issued_token(token@, user.user_id, user.role, *settings, now as int);
            let r = Ok(LogedIn { token });
            assert(issued_token(r->Ok_0.token@, user.user_id, user.role, *settings, now as int));
            r
        },
        Err(e) => Err(e),
    }
}

} // verus!
