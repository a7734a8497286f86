//! Signed, time-bounded session tokens (HS256 JSON Web Tokens).

use vstd::prelude::*;
use jsonwebtoken::{Algorithm, DecodingKey, EncodingKey, Header, Validation};
use crate::error::AuthError;

verus! {

/// How long a token stays valid after it is issued: seven days, in seconds.
pub const TOKEN_LIFETIME_SECS: u64 = 604800;

/// The payload of a session token.
#[derive(Debug, Clone)]
pub struct Claims {
    /// The user's identifier, an integer in decimal.
    pub sub: String,
    /// Expiry, in seconds since the Unix epoch.
    pub exp: u64,
    /// Issue time, in seconds since the Unix epoch.
    pub iat: u64,
    /// The user's role, such as `"user"` or `"admin"`.
    pub role: String,
}

/// The claims as plain values: subject, expiry, issue time, role.
pub type ClaimsView = (Seq<char>, u64, u64, Seq<char>);

impl Claims {
    pub open spec fn view_fields(&self) -> ClaimsView {
        (self.sub@, self.exp, self.iat, self.role@)
    }
}

/// The claims that an HS256 token carries once its signature checks out under
/// `secret`; `None` for a token that is malformed, signed otherwise, or lacks
/// one of the four claims. Expiry plays no part here.
pub uninterp spec fn hs256_claims(token: Seq<char>, secret: Seq<char>) -> Option<ClaimsView>;

/// The HS256 token that signs a payload of the four claims under `secret`.
/// Signing is deterministic: the same claims and secret give the same token.
pub uninterp spec fn hs256_token(sub: Seq<char>, exp: u64, iat: u64, role: Seq<char>, secret: Seq<char>) -> Seq<char>;

/// The token issued at `now` for `sub` with `role` under `secret`.
pub open spec fn token_issued(sub: Seq<char>, role: Seq<char>, now: u64, secret: Seq<char>) -> Seq<char> {
    hs256_token(sub, (now + TOKEN_LIFETIME_SECS) as u64, now, role, secret)
}

/// The claims of a token issued at `now` for `sub` with `role`.
pub open spec fn claims_issued(sub: Seq<char>, role: Seq<char>, now: u64) -> ClaimsView {
    (sub, (now + TOKEN_LIFETIME_SECS) as u64, now, role)
}

/// What verifying `token` under `secret` at time `now` yields: its claims,
/// while its signature checks out and `now` is before its expiry.
pub open spec fn token_claims_at(secret: Seq<char>, token: Seq<char>, now: u64) -> Option<ClaimsView> {
    match hs256_claims(token, secret) {
        Some(c) => if now < c.1 {
            Some(c)
        } else {
            None
        },
        None => None,
    }
}

/// Relies on `jsonwebtoken::encode` with the default header (HS256) and
/// `EncodingKey::from_secret`. For an HMAC key and a JSON object of strings and
/// integers it never fails (the key family matches HS256, the parts serialise,
/// HMAC signing is infallible), and `decode` with the same key and HS256 reads
/// the four claims back.
#[verifier::external_body]
fn hs256_encode(claims: &Claims, secret: &str) -> (r: Option<String>)
    ensures
        r is Some,
        r matches Some(t) ==> t@ == hs256_token(claims.sub@, claims.exp, claims.iat, claims.role@, secret@),
        r matches Some(t) ==> hs256_claims(t@, secret@) == Some(claims.view_fields()),
{
    let mut payload = serde_json::Map::new();
    payload.insert("sub".to_string(), serde_json::Value::from(claims.sub.as_str()));
    payload.insert("exp".to_string(), serde_json::Value::from(claims.exp));
    payload.insert("iat".to_string(), serde_json::Value::from(claims.iat));
    payload.insert("role".to_string(), serde_json::Value::from(claims.role.as_str()));
    let key = EncodingKey::from_secret(secret.as_bytes());
    jsonwebtoken::encode(&Header::default(), &payload, &key).ok()
}

/// Relies on `jsonwebtoken::decode` with `DecodingKey::from_secret`, HS256 and
/// the expiry check switched off (the caller compares the expiry with its own
/// clock): it checks the signature and that `exp` is present, and yields the
/// payload object, whose four claims are then read by name.
#[verifier::external_body]
fn hs256_decode(token: &str, secret: &str) -> (r: Option<Claims>)
    ensures
        r is None <==> hs256_claims(token@, secret@) is None,
        r matches Some(c) ==> hs256_claims(token@, secret@) == Some(c.view_fields()),
{
    let mut validation = Validation::new(Algorithm::HS256);
    validation.validate_exp = false;
    let key = DecodingKey::from_secret(secret.as_bytes());
    let data = jsonwebtoken::decode::<serde_json::Map<String, serde_json::Value>>(token, &key, &validation).ok()?;
    let sub = data.claims.get("sub")?.as_str()?.to_string();
    let exp = data.claims.get("exp")?.as_u64()?;
    let iat = data.claims.get("iat")?.as_u64()?;
    let role = data.claims.get("role")?.as_str()?.to_string();
    Some(Claims { sub, exp, iat, role })
}

/// Relies on `std::time::SystemTime::now` and `duration_since(UNIX_EPOCH)`:
/// the whole seconds since the Unix epoch, or `None` for a clock that reads
/// earlier. Nothing is stated of its value.
#[verifier::external_body]
fn unix_now() -> (r: Option<u64>) {
    std::time::SystemTime::now().duration_since(std::time::UNIX_EPOCH).ok().map(|d| d.as_secs())
}

/// Process-wide configuration of the token codec: the signing secret, read
/// once at startup and never changed.
#[derive(Debug, Clone)]
pub struct AuthConfig {
    secret: String,
}

impl AuthConfig {
    /// The signing secret.
    pub closed spec fn spec_secret(&self) -> Seq<char> {
        self.secret@
    }

    /// Builds the configuration from the secret that the environment holds,
    /// if any; an absent secret is a configuration error.
    pub fn new(secret: Option<String>) -> (r: Result<AuthConfig, AuthError>)
        ensures
            match secret {
                Some(s) => r matches Ok(c) && c.spec_secret() == s@,
                None => r == Err::<AuthConfig, AuthError>(AuthError::Configuration),
            },
    {
        match secret {
            Some(s) => Ok(AuthConfig { secret: s }),
            None => Err(AuthError::Configuration),
        }
    }
}

/// Issues a token for `user_id` with `role` at time `now`, valid for seven
/// days. Fails only when the expiry would not fit in the clock's range.
pub fn issue_token(config: &AuthConfig, user_id: &str, role: &str, now: u64) -> (r: Result<String, AuthError>)
    ensures
        r is Ok <==> now <= u64::MAX - TOKEN_LIFETIME_SECS,
        r matches Ok(t) ==> t@ == token_issued(user_id@, role@, now, config.spec_secret()),
        r matches Ok(t) ==> hs256_claims(t@, config.spec_secret()) == Some(
            claims_issued(user_id@, role@, now),
        ),
        r matches Err(e) ==> e == AuthError::Clock,
{
    if now > u64::MAX - TOKEN_LIFETIME_SECS {
        return Err(AuthError::Clock);
    }
    let claims = Claims {
        sub: user_id.to_string(),
        exp: now + TOKEN_LIFETIME_SECS,
        iat: now,
        role: role.to_string(),
    };
    match hs256_encode(&claims, config.secret.as_str()) {
        Some(t) => Ok(t),
        None => Err(AuthError::Clock),
    }
}

/// Verifies `token` at time `now`: its claims exactly when the signature checks
/// out under the configured secret and `now` is before the expiry.
pub fn verify_token(config: &AuthConfig, token: &str, now: u64) -> (r: Result<Claims, AuthError>)
    ensures
        r is Ok <==> token_claims_at(config.spec_secret(), token@, now) is Some,
        r matches Ok(c) ==> token_claims_at(config.spec_secret(), token@, now) == Some(
            c.view_fields(),
        ),
        r matches Err(e) ==> e == AuthError::InvalidToken,
{
    match hs256_decode(token, config.secret.as_str()) {
        Some(c) => if now < c.exp {
            Ok(c)
        } else {
            Err(AuthError::InvalidToken)
        },
        None => Err(AuthError::InvalidToken),
    }
}

/// The clock's reading, where a token can carry it.
pub(crate) fn clock_now() -> (r: Result<u64, AuthError>)
    ensures
        r matches Err(e) ==> e == AuthError::Clock,
{
    match unix_now() {
        Some(t) => Ok(t),
        None => Err(AuthError::Clock),
    }
}

/// Issues a token for `user_id` with `role` at the current time.
pub fn generate_jwt(config: &AuthConfig, user_id: &str, role: &str) -> (r: Result<String, AuthError>)
    ensures
        r matches Ok(t) ==> exists|now: u64|
            t@ == #[trigger] token_issued(user_id@, role@, now, config.spec_secret())
                && hs256_claims(t@, config.spec_secret()) == Some(claims_issued(user_id@, role@, now)),
        r matches Err(e) ==> e == AuthError::Clock,
{
    let now = clock_now()?;
    issue_token(config, user_id, role, now)
}

/// Verifies `token` at the current time.
pub fn verify_jwt(config: &AuthConfig, token: &str) -> (r: Result<Claims, AuthError>)
    ensures
        r matches Ok(c) ==> exists|now: u64|
            #[trigger] token_claims_at(config.spec_secret(), token@, now) == Some(c.view_fields()),
        r matches Err(e) ==> e == AuthError::InvalidToken || e == AuthError::Clock,
{
    let now = clock_now()?;
    verify_token(config, token, now)
}

/// A token issued at `issued` verifies at every time before its expiry, with
/// the same subject and role, and with an expiry exactly seven days after its
/// issue time.
pub proof fn lemma_issue_then_verify(
    secret: Seq<char>,
    token: Seq<char>,
    sub: Seq<char>,
    role: Seq<char>,
    issued: u64,
    later: u64,
)
    requires
        issued <= u64::MAX - TOKEN_LIFETIME_SECS,
        hs256_claims(token, secret) == Some(claims_issued(sub, role, issued)),
        issued <= later < issued + TOKEN_LIFETIME_SECS,
    ensures
        token_claims_at(secret, token, later) matches Some(c) && c.0 == sub && c.3 == role
            && c.1 - c.2 == TOKEN_LIFETIME_SECS,
{
}

/// No token verifies at or after its expiry.
pub proof fn lemma_expired_token_rejected(secret: Seq<char>, token: Seq<char>, now: u64)
    requires
        hs256_claims(token, secret) matches Some(c) && c.1 <= now,
    ensures
        token_claims_at(secret, token, now) is None,
{
}

} // verus!
