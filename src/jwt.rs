use vstd::prelude::*;

use crate::error::AccessError;
use crate::roles::{role_name, RolesEnum};
use jsonwebtoken::{Algorithm, DecodingKey, EncodingKey, Header, Validation};

verus! {

/// The signed payload of a session token.
pub struct Claims {
    /// The account id of the subject.
    pub sub: i32,
    /// Reserved; always `0` in issued tokens.
    pub res: i64,
    /// The subject's role name at issuance.
    pub rl: String,
    /// Expiry, in seconds since the epoch.
    pub exp: usize,
}

/// The claims as plain values.
pub struct ClaimsView {
    pub sub: i32,
    pub res: i64,
    pub rl: Seq<char>,
    pub exp: usize,
}

impl View for Claims {
    type V = ClaimsView;

    open spec fn view(&self) -> ClaimsView {
        ClaimsView { sub: self.sub, res: self.res, rl: self.rl@, exp: self.exp }
    }
}

pub open spec fn opt_claims_view(c: Option<Claims>) -> Option<ClaimsView> {
    match c {
        Some(c) => Some(c@),
        None => None,
    }
}

/// Whether `c` may stand in a compact token: a base64url digit or the dot
/// between the token's three parts.
pub open spec fn is_token_char(c: char) -> bool {
    ||| 'A' <= c <= 'Z'
    ||| 'a' <= c <= 'z'
    ||| '0' <= c <= '9'
    ||| c == '-'
    ||| c == '_'
    ||| c == '.'
}

pub open spec fn token_chars(t: Seq<char>) -> bool {
    forall|i: int| 0 <= i < t.len() ==> is_token_char(#[trigger] t[i])
}

/// The compact HS256 token that signs `claims` with `secret`.
pub uninterp spec fn jwt_encoding(claims: ClaimsView, secret: Seq<char>) -> Seq<char>;

/// The claims of `token` when its HS256 signature checks out under `secret`
/// and its payload holds the four claims; expiry is not looked at here.
pub uninterp spec fn jwt_payload(token: Seq<char>, secret: Seq<char>) -> Option<ClaimsView>;

/// Relies on jsonwebtoken::encode with the default (HS256) header: the token
/// depends on the claims and the secret alone, with an HMAC key and a JSON
/// object payload encoding does not fail, and the token is three unpadded
/// base64url parts joined by dots.
#[verifier::external_body]
fn sign_claims(claims: &Claims, secret: &String) -> (r: Option<String>)
    ensures
        r is Some,
        r matches Some(t) ==> t@ == jwt_encoding(claims@, secret@),
        r matches Some(t) ==> token_chars(t@),
{
    let mut payload = serde_json::Map::new();
    payload.insert("sub".to_string(), claims.sub.into());
    payload.insert("res".to_string(), claims.res.into());
    payload.insert("rl".to_string(), claims.rl.clone().into());
    payload.insert("exp".to_string(), claims.exp.into());
    let key = EncodingKey::from_secret(secret.as_bytes());
    jsonwebtoken::encode(&Header::default(), &payload, &key).ok()
}

/// Relies on jsonwebtoken::decode with HS256 and the expiry check switched
/// off: the outcome depends on the token and the secret alone, and a token
/// that jsonwebtoken::encode made from some claims under the same secret
/// gives those claims back.
#[verifier::external_body]
fn open_token(token: &str, secret: &String) -> (r: Option<Claims>)
    ensures
        r matches Some(c) ==> jwt_payload(token@, secret@) == Some(c@),
        r is None ==> jwt_payload(token@, secret@) is None,
        forall|c: ClaimsView|
            #[trigger] jwt_encoding(c, secret@) == token@ ==> opt_claims_view(r) == Some(c),
{
    let mut validation = Validation::new(Algorithm::HS256);
    validation.validate_exp = false;
    let key = DecodingKey::from_secret(secret.as_bytes());
    let c = jsonwebtoken::decode::<serde_json::Map<String, serde_json::Value>>(token, &key, &validation).ok()?.claims;
    Some(Claims {
        sub: i32::try_from(c.get("sub")?.as_i64()?).ok()?,
        res: c.get("res")?.as_i64()?,
        rl: c.get("rl")?.as_str()?.to_string(),
        exp: usize::try_from(c.get("exp")?.as_u64()?).ok()?,
    })
}

/// Relies on chrono::Utc::now: the current time in seconds since the epoch,
/// which is never before the epoch.
#[verifier::external_body]
pub(crate) fn current_timestamp() -> (r: i64)
    ensures
        r >= 0,
{
    chrono::Utc::now().timestamp()
}

/// Signs `my_claims` with `secret`.
pub fn encode_jwt(my_claims: Claims, secret: &String) -> (r: Option<String>)
    ensures
        r matches Some(t) && t@ == jwt_encoding(my_claims@, secret@) && token_chars(t@),
{
    sign_claims(&my_claims, secret)
}

/// The claims that verification at time `now` accepts: a good signature
/// under `secret` and an expiry that is not in the past.
pub open spec fn verified_claims(token: Seq<char>, secret: Seq<char>, now: int) -> Option<
    ClaimsView,
> {
    match jwt_payload(token, secret) {
        Some(c) => if c.exp >= now {
            Some(c)
        } else {
            None
        },
        None => None,
    }
}

/// Verifies `token` at time `now`: a bad signature and an expired token both
/// give `None`. A token signed from some claims under the same secret gives
/// those claims back unless they have expired.
pub fn decode_jwt(token: String, secret: &String, now: i64) -> (r: Option<Claims>)
    ensures
        opt_claims_view(r) == verified_claims(token@, secret@, now as int),
        forall|c: ClaimsView| #[trigger] jwt_encoding(c, secret@) == token@ ==> opt_claims_view(r)
            == if c.exp >= now {
            Some(c)
        } else {
            None::<ClaimsView>
        },
{
    match open_token(token.as_str(), secret) {
        Some(c) => {
            if now < 0 || (c.exp as u64) >= (now as u64) {
                Some(c)
            } else {
                None
            }
        },
        None => None,
    }
}

/// The signing secret and the lifetime of issued tokens.
pub struct TokenSettings {
    pub jwt_secret: String,
    /// Token lifetime in minutes.
    pub jwt_expires_in: i64,
}

/// The expiry of a token issued at `now` with a lifetime of `minutes`.
pub open spec fn expiry_at(now: int, minutes: int) -> int {
    now + 60 * minutes
}

/// The claims of a session token for `sub` in `role` that expires at `exp`.
pub open spec fn session_claims(sub: i32, role: RolesEnum, exp: usize) -> ClaimsView {
    ClaimsView { sub, res: 0, rl: role_name(role), exp }
}

/// Whether `token` is the session token issued at `now` for `sub` in `role`.
pub open spec fn issued_token(
    token: Seq<char>,
    sub: i32,
    role: RolesEnum,
    settings: TokenSettings,
    now: int,
) -> bool {
    let exp = expiry_at(now, settings.jwt_expires_in as int);
    &&& 0 <= exp <= usize::MAX
    &&& jwt_encoding(session_claims(sub, role, exp as usize), settings.jwt_secret@) == token
    &&& token_chars(token)
}

/// Whether issuance at `now` can succeed: the expiry fits in a `usize`.
pub open spec fn issuable(settings: TokenSettings, now: int) -> bool {
    0 <= expiry_at(now, settings.jwt_expires_in as int) <= usize::MAX
}

/// Issues the session token for `sub` in `role` at time `now`.
pub fn issue_token(sub: i32, role: RolesEnum, settings: &TokenSettings, now: i64) -> (r: Result<
    String,
    AccessError,
>)
    ensures
        match r {
            Ok(t) => issued_token(t@, sub, role, *settings, now as int),
            Err(e) => e == AccessError::UpstreamFailure && !issuable(*settings, now as int),
        },
{
    let exp: i128 = now as i128 + 60 * (settings.jwt_expires_in as i128);
    if exp < 0 || exp > usize::MAX as i128 {
        return Err(AccessError::UpstreamFailure);
    }
    let claims = Claims { sub, res: 0, rl: role.name(), exp: exp as usize };
    match encode_jwt(claims, &settings.jwt_secret) {
        Some(t) => Ok(t),
        None => Err(AccessError::UpstreamFailure),
    }
}

/// Issues the session token for `sub` in `role`, expiring the configured
/// number of minutes after the current time.
pub fn issue_session(sub: i32, role: RolesEnum, settings: &TokenSettings) -> (r: Result<
    String,
    AccessError,
>)
    ensures
        match r {
            Ok(t) => exists|now: i64| issued_token(t@, sub, role, *settings, now as int),
            Err(e) => e == AccessError::UpstreamFailure && exists|now: i64|
                now >= 0 && !#[trigger] issuable(*settings, now as int),
        },
{
    let now = current_timestamp();
    let r = issue_token(sub, role, settings, now);
    assert(r is Err ==> now >= 0 && !issuable(*settings, now as int));
    r
}

/// Verifying the same token twice gives the same claims: at one instant the
/// outcome is the same, and at two instants where both succeed the claims
/// are equal; a token that verifies at some time also verifies earlier.
pub proof fn lemma_verification_repeatable(token: Seq<char>, secret: Seq<char>, now1: int, now2: int)
    ensures
        now1 == now2 ==> verified_claims(token, secret, now1) == verified_claims(token, secret, now2),
        verified_claims(token, secret, now1) is Some && verified_claims(token, secret, now2) is Some
            ==> verified_claims(token, secret, now1) == verified_claims(token, secret, now2),
        verified_claims(token, secret, now2) is Some && now1 <= now2 ==> verified_claims(
            token,
            secret,
            now1,
        ) == verified_claims(token, secret, now2),
{
}

} // verus!
