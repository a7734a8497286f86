//! Request guards: the identity extractor and the role authorizer.

use vstd::prelude::*;
use crate::error::Status;
use crate::jwt::{token_claims_at, verify_token, AuthConfig, Claims};

verus! {

/// The name of the cookie that carries the session token.
pub const AUTH_COOKIE: &'static str = "auth_token";

/// The only role that the role authorizer admits.
pub const ADMIN_ROLE: &'static str = "admin";

/// Why a guard turned a request away.
#[derive(Debug, Clone, Copy, PartialEq, Eq, Structural)]
pub enum Rejection {
    /// No valid session token.
    Unauthorized,
    /// A valid token, but not the role required.
    Forbidden,
}

impl Rejection {
    pub open spec fn spec_status(self) -> Status {
        match self {
            Rejection::Unauthorized => Status::Unauthorized,
            Rejection::Forbidden => Status::Forbidden,
        }
    }

    /// The HTTP status that the rejection ends the request with.
    pub fn status(&self) -> (r: Status)
        ensures
            r == self.spec_status(),
    {
        match self {
            Rejection::Unauthorized => Status::Unauthorized,
            Rejection::Forbidden => Status::Forbidden,
        }
    }
}

/// Whether two strings hold the same characters.
pub fn str_equal(a: &str, b: &str) -> (r: bool)
    ensures
        r == (a@ == b@),
{
    let n = a.unicode_len();
    if n != b.unicode_len() {
        return false;
    }
    let mut i: usize = 0;
    while i < n
        invariant
            n == a@.len(),
            n == b@.len(),
            i <= n,
            forall|k: int| 0 <= k < i ==> a@[k] == b@[k],
        decreases n - i,
    {
        if a.get_char(i) != b.get_char(i) {
            return false;
        }
        i = i + 1;
    }
    assert(a@ =~= b@);
    true
}

/// The identity of an authenticated request: the claims of its valid token.
#[derive(Debug, Clone)]
pub struct JwtAuth {
    pub claims: Claims,
}

impl JwtAuth {
    /// Extracts the identity from the value of the `auth_token` cookie, if the
    /// request has one, at time `now`. A missing cookie or a token that does not
    /// verify is `Unauthorized`.
    pub fn from_cookie_at(config: &AuthConfig, cookie: Option<&str>, now: u64) -> (r: Result<JwtAuth, Rejection>)
        ensures
            match cookie {
                None => r == Err::<JwtAuth, Rejection>(Rejection::Unauthorized),
                Some(t) => {
                    &&& r is Ok <==> token_claims_at(config.spec_secret(), t@, now) is Some
                    &&& r matches Ok(a) ==> token_claims_at(config.spec_secret(), t@, now) == Some(
                        a.claims.view_fields(),
                    )
                    &&& r matches Err(e) ==> e == Rejection::Unauthorized
                },
            },
    {
        match cookie {
            None => Err(Rejection::Unauthorized),
            Some(token) => match verify_token(config, token, now) {
                Ok(claims) => Ok(JwtAuth { claims }),
                Err(_) => Err(Rejection::Unauthorized),
            },
        }
    }

    /// Extracts the identity from the `auth_token` cookie at the current time.
    pub fn from_cookie(config: &AuthConfig, cookie: Option<&str>) -> (r: Result<JwtAuth, Rejection>)
        ensures
            cookie is None ==> r == Err::<JwtAuth, Rejection>(Rejection::Unauthorized),
            r matches Ok(a) ==> cookie matches Some(t) && exists|now: u64|
                #[trigger] token_claims_at(config.spec_secret(), t@, now) == Some(a.claims.view_fields()),
            r matches Err(e) ==> e == Rejection::Unauthorized,
    {
        match cookie {
            None => Err(Rejection::Unauthorized),
            Some(token) => match crate::jwt::clock_now() {
                Ok(now) => JwtAuth::from_cookie_at(config, Some(token), now),
                Err(_) => Err(Rejection::Unauthorized),
            },
        }
    }
}

/// The identity of a request whose token carries the `admin` role.
#[derive(Debug, Clone)]
pub struct RoleAuth {
    claims: Claims,
}

impl RoleAuth {
    pub closed spec fn spec_claims(&self) -> Claims {
        self.claims
    }

    /// The claims of the admitted token.
    pub fn claims(&self) -> (r: &Claims)
        ensures
            *r == self.spec_claims(),
    {
        &self.claims
    }

    /// Requires the `admin` role of an identity that the extractor produced:
    /// a rejection of the extractor passes through unchanged, another role is
    /// `Forbidden`.
    pub fn from_identity(identity: Result<JwtAuth, Rejection>) -> (r: Result<RoleAuth, Rejection>)
        ensures
            match identity {
                Err(e) => r == Err::<RoleAuth, Rejection>(e),
                Ok(a) => if a.claims.role@ == ADMIN_ROLE@ {
                    r matches Ok(ra) && ra.spec_claims() == a.claims
                } else {
                    r == Err::<RoleAuth, Rejection>(Rejection::Forbidden)
                },
            },
    {
        match identity {
            Err(e) => Err(e),
            Ok(a) => if str_equal(a.claims.role.as_str(), ADMIN_ROLE) {
                Ok(RoleAuth { claims: a.claims })
            } else {
                Err(Rejection::Forbidden)
            },
        }
    }

    /// Runs the identity extractor on the `auth_token` cookie at time `now`,
    /// then requires the `admin` role.
    pub fn from_cookie_at(config: &AuthConfig, cookie: Option<&str>, now: u64) -> (r: Result<RoleAuth, Rejection>)
        ensures
            match cookie {
                None => r == Err::<RoleAuth, Rejection>(Rejection::Unauthorized),
                Some(t) => match token_claims_at(config.spec_secret(), t@, now) {
                    None => r == Err::<RoleAuth, Rejection>(Rejection::Unauthorized),
                    Some(c) => if c.3 == ADMIN_ROLE@ {
                        r matches Ok(ra) && ra.spec_claims().view_fields() == c
                    } else {
                        r == Err::<RoleAuth, Rejection>(Rejection::Forbidden)
                    },
                },
            },
    {
        let identity = JwtAuth::from_cookie_at(config, cookie, now);
        RoleAuth::from_identity(identity)
    }

    /// Runs the identity extractor on the `auth_token` cookie at the current
    /// time, then requires the `admin` role.
    pub fn from_cookie(config: &AuthConfig, cookie: Option<&str>) -> (r: Result<RoleAuth, Rejection>)
        ensures
            cookie is None ==> r == Err::<RoleAuth, Rejection>(Rejection::Unauthorized),
            r matches Ok(ra) ==> ra.spec_claims().role@ == ADMIN_ROLE@,
            r matches Ok(ra) ==> (cookie matches Some(t) && exists|now: u64|
                #[trigger] token_claims_at(config.spec_secret(), t@, now) == Some(
                    ra.spec_claims().view_fields(),
                )),
            r matches Err(e) ==> e == Rejection::Unauthorized || e == Rejection::Forbidden,
            r == Err::<RoleAuth, Rejection>(Rejection::Forbidden) ==> (cookie matches Some(t) && exists|now: u64|
                #[trigger] token_claims_at(config.spec_secret(), t@, now) matches Some(c) && c.3 != ADMIN_ROLE@),
    {
        let identity = JwtAuth::from_cookie(config, cookie);
        RoleAuth::from_identity(identity)
    }
}

} // verus!
