//! Who may call what: the paths that are open to everyone, the bearer
//! token of a request, the claims of a session, and the decision that the
//! guard in front of every route takes.

use vstd::prelude::*;
use crate::clock::now_secs;
use crate::text::{has_prefix, starts_with, str_eq};

verus! {

/// How long a session token is valid: one day, in seconds.
pub const TOKEN_EXPIRY_SECONDS: i64 = 86_400;

/// What an authorization header must begin with.
pub const BEARER_PREFIX: &'static str = "Bearer ";

/// The paths that need no session: the root, the health probes, login,
/// registration and refresh, the documentation, and everything under
/// `/assets/` and `/public/`.
pub open spec fn public_path(path: Seq<char>) -> bool {
    ||| path == "/"@
    ||| path == "/health"@
    ||| path == "/api/health"@
    ||| path == "/api/auth/login"@
    ||| path == "/api/auth/register"@
    ||| path == "/api/auth/refresh"@
    ||| path == "/docs"@
    ||| path == "/swagger"@
    ||| path == "/openapi.json"@
    ||| has_prefix(path, "/assets/"@)
    ||| has_prefix(path, "/public/"@)
}

/// Decides whether `path` is open to callers without a session.
pub fn is_public_path(path: &str) -> (public: bool)
    ensures
        public == public_path(path@),
{
    str_eq(path, "/") || str_eq(path, "/health") || str_eq(path, "/api/health") || str_eq(
        path,
        "/api/auth/login",
    ) || str_eq(path, "/api/auth/register") || str_eq(path, "/api/auth/refresh") || str_eq(
        path,
        "/docs",
    ) || str_eq(path, "/swagger") || str_eq(path, "/openapi.json") || starts_with(path, "/assets/")
        || starts_with(path, "/public/")
}

/// Decides whether `path` needs no authentication: the same paths as
/// `is_public_path`.
pub fn no_auth_path(path: &str) -> (open: bool)
    ensures
        open == public_path(path@),
{
    is_public_path(path)
}

/// Why a caller was not let in.
#[derive(Clone, Copy, Debug, PartialEq, Eq, Structural)]
pub enum AuthError {
    /// The authorization header does not begin with `Bearer `.
    InvalidHeaderFormat,
    /// No valid session came with the request.
    Unauthorized,
}

impl AuthError {
    /// A sentence for the caller.
    pub open spec fn message_text(&self) -> Seq<char> {
        match self {
            AuthError::InvalidHeaderFormat => "Invalid authorization header format"@,
            AuthError::Unauthorized => "Unauthorized"@,
        }
    }

    /// A sentence for the caller.
    pub fn message(&self) -> (text: String)
        ensures
            text@ == self.message_text(),
    {
        match self {
            AuthError::InvalidHeaderFormat => "Invalid authorization header format".to_owned(),
            AuthError::Unauthorized => "Unauthorized".to_owned(),
        }
    }

    /// The status code under which the error is reported over HTTP: 401.
    pub fn status_code(&self) -> (code: u16)
        ensures
            code == 401,
    {
        401
    }
}

/// What follows `Bearer ` in an authorization header, where the header
/// begins with it.
pub open spec fn bearer_of(header: Seq<char>) -> Option<Seq<char>> {
    if has_prefix(header, BEARER_PREFIX@) {
        Some(header.subrange(BEARER_PREFIX@.len() as int, header.len() as int))
    } else {
        None
    }
}

/// The token service of the sessions.
pub struct JwtService;

impl JwtService {
    /// Takes the token out of an authorization header: what follows
    /// `Bearer `, which may be empty; `InvalidHeaderFormat` for a header
    /// that does not begin so. The prefix is case-sensitive.
    pub fn extract_bearer_token(auth_header: &str) -> (token: Result<&str, AuthError>)
        ensures
            match bearer_of(auth_header@) {
                Some(rest) => token matches Ok(t) && t@ == rest,
                None => token matches Err(e) && e == AuthError::InvalidHeaderFormat,
            },
    {
        if starts_with(auth_header, BEARER_PREFIX) {
            let from = BEARER_PREFIX.unicode_len();
            let to = auth_header.unicode_len();
            Ok(auth_header.substring_char(from, to))
        } else {
            Err(AuthError::InvalidHeaderFormat)
        }
    }
}

/// The bearer token of a request, given its authorization header if it
/// has one: `None` without a header and for a header of another form.
pub fn extract_token(header: Option<&str>) -> (token: Option<String>)
    ensures
        match header {
            Some(h) => match bearer_of(h@) {
                Some(rest) => token matches Some(t) && t@ == rest,
                None => token is None,
            },
            None => token is None,
        },
{
    match header {
        Some(h) => match JwtService::extract_bearer_token(h) {
            Ok(t) => Some(t.to_owned()),
            Err(_) => None,
        },
        None => None,
    }
}

/// The claims of a session token: whose it is, and from when to when it
/// holds, in seconds since the Unix epoch.
#[derive(Debug, PartialEq, Eq)]
pub struct Claims {
    pub sub: String,
    pub email: String,
    pub exp: i64,
    pub iat: i64,
}

impl Clone for Claims {
    fn clone(&self) -> (copy: Self)
        ensures
            copy == *self,
    {
        Claims { sub: self.sub.clone(), email: self.email.clone(), exp: self.exp, iat: self.iat }
    }
}

impl Claims {
    /// The claims of a token issued at `now` to the user `user_id` for
    /// `expires_in_seconds` seconds.
    pub fn issued_at(user_id: String, email: String, expires_in_seconds: i64, now: i64) -> (claims:
        Claims)
        requires
            i64::MIN <= now + expires_in_seconds <= i64::MAX,
        ensures
            claims.sub == user_id,
            claims.email == email,
            claims.iat == now,
            claims.exp == now + expires_in_seconds,
    {
        Claims { sub: user_id, email, exp: now + expires_in_seconds, iat: now }
    }

    /// The claims of a token issued at `now` to the user `user_id` for
    /// `expires_in_seconds` seconds, where the instant at which the token
    /// runs out can be held: `None` where `now + expires_in_seconds` is
    /// outside the range of an `i64`.
    pub fn checked_issued_at(
        user_id: String,
        email: String,
        expires_in_seconds: i64,
        now: i64,
    ) -> (claims: Option<Claims>)
        ensures
            match claims {
                Some(c) => {
                    &&& i64::MIN <= now + expires_in_seconds <= i64::MAX
                    &&& c.sub == user_id
                    &&& c.email == email
                    &&& c.iat == now
                    &&& c.exp == now + expires_in_seconds
                },
                None => !(i64::MIN <= now + expires_in_seconds <= i64::MAX),
            },
    {
        let fits = if expires_in_seconds >= 0 {
            now <= i64::MAX - expires_in_seconds
        } else {
            now >= i64::MIN - expires_in_seconds
        };
        if fits {
            Some(Claims::issued_at(user_id, email, expires_in_seconds, now))
        } else {
            None
        }
    }

    /// The claims of a token issued now, by the system clock, to the user
    /// `user_id` for `expires_in_seconds` seconds. `None` where the clock
    /// gives no instant, as when it stands before the Unix epoch, or
    /// where the instant at which the token runs out cannot be held.
    pub fn new(user_id: String, email: String, expires_in_seconds: i64) -> (claims: Option<Claims>)
        ensures
            claims matches Some(c) ==> {
                &&& c.sub == user_id
                &&& c.email == email
                &&& c.iat >= 0
                &&& c.exp == c.iat + expires_in_seconds
            },
    {
        match now_secs() {
            Some(now) => Claims::checked_issued_at(user_id, email, expires_in_seconds, now),
            None => None,
        }
    }

    /// Whether the token has run out at `now`.
    pub fn is_expired(&self, now: i64) -> (expired: bool)
        ensures
            expired == (self.exp < now),
    {
        self.exp < now
    }
}

/// A caller with a valid bearer token.
#[derive(Debug, PartialEq, Eq)]
pub struct AuthUser(pub Claims);

/// A caller with a valid token in a cookie or in the authorization header.
#[derive(Debug, PartialEq, Eq)]
pub struct AuthUserAny(pub Claims);

/// The first of two claims that is there: those of the cookie before
/// those of the header.
pub open spec fn first_valid(cookie: Option<Claims>, bearer: Option<Claims>) -> Option<Claims> {
    match cookie {
        Some(claims) => Some(claims),
        None => bearer,
    }
}

impl AuthUser {
    /// Admits the caller whose bearer token was found valid, with the
    /// claims of that token; `Unauthorized` without one.
    pub fn from_bearer(bearer: Option<Claims>) -> (user: Result<AuthUser, AuthError>)
        ensures
            match bearer {
                Some(claims) => user matches Ok(u) && u.0 == claims,
                None => user matches Err(e) && e == AuthError::Unauthorized,
            },
    {
        match bearer {
            Some(claims) => Ok(AuthUser(claims)),
            None => Err(AuthError::Unauthorized),
        }
    }
}

impl AuthUserAny {
    /// Admits the caller who has a valid token: `cookie` holds the claims
    /// of the token in the cookie, `bearer` those of the token in the
    /// authorization header, each `None` where that token is missing or
    /// not valid. The cookie goes first. `Unauthorized` without either.
    pub fn from_tokens(cookie: Option<Claims>, bearer: Option<Claims>) -> (user: Result<
        AuthUserAny,
        AuthError,
    >)
        ensures
            match first_valid(cookie, bearer) {
                Some(claims) => user matches Ok(u) && u.0 == claims,
                None => user matches Err(e) && e == AuthError::Unauthorized,
            },
    {
        match cookie {
            Some(claims) => Ok(AuthUserAny(claims)),
            None => match bearer {
                Some(claims) => Ok(AuthUserAny(claims)),
                None => Err(AuthError::Unauthorized),
            },
        }
    }
}

/// The user of a request, from the claims of its cookie token and of its
/// bearer token as in `AuthUserAny::from_tokens`: the subject of the
/// first valid one, `Unauthorized` without either.
pub fn user_id_from_tokens(cookie: Option<Claims>, bearer: Option<Claims>) -> (user_id: Result<
    String,
    AuthError,
>)
    ensures
        match first_valid(cookie, bearer) {
            Some(claims) => user_id matches Ok(id) && id == claims.sub,
            None => user_id matches Err(e) && e == AuthError::Unauthorized,
        },
{
    match AuthUserAny::from_tokens(cookie, bearer) {
        Ok(user) => Ok(user.0.sub),
        Err(e) => Err(e),
    }
}

/// The user in whose name a request runs, if any.
#[derive(Debug)]
pub struct UserScope {
    pub user_id: Option<String>,
}

impl UserScope {
    /// The scope of a request without a user.
    pub fn anonymous() -> (scope: UserScope)
        ensures
            scope.user_id is None,
    {
        UserScope { user_id: None }
    }

    /// The scope of a request of the user `user_id`.
    pub fn of(user_id: String) -> (scope: UserScope)
        ensures
            scope.user_id == Some(user_id),
    {
        UserScope { user_id: Some(user_id) }
    }
}

/// The identifier of the user in whose name `scope` runs; `None` outside
/// any user's scope.
pub fn get_user_id(scope: &UserScope) -> (user_id: Option<String>)
    ensures
        user_id == scope.user_id,
{
    match &scope.user_id {
        Some(id) => Some(id.clone()),
        None => None,
    }
}

/// What the guard in front of the routes does with a request.
#[derive(Debug, PartialEq, Eq)]
pub enum Access {
    /// The request goes on, in the name of `user_id` where it has one.
    Forward { user_id: Option<String> },
    /// The request is answered with 401.
    Reject,
}

/// What the guard should do with a request to `path`, given as `user_id`
/// the subject of its bearer token where that token is valid.
pub open spec fn access_for(preflight: bool, path: Seq<char>, user_id: Option<String>) -> Access {
    if preflight {
        Access::Forward { user_id: None }
    } else if public_path(path) || user_id is Some {
        Access::Forward { user_id }
    } else {
        Access::Reject
    }
}

/// Decides what the guard does with a request. A preflight request passes
/// as it is, whatever its path and token. Any other request passes where
/// its path is public or its token is valid, and then carries the user of
/// a valid token, on public paths too; the rest is rejected.
pub fn authorize(preflight: bool, path: &str, user_id: Option<String>) -> (access: Access)
    ensures
        access == access_for(preflight, path@, user_id),
{
    if preflight {
        Access::Forward { user_id: None }
    } else if is_public_path(path) || user_id.is_some() {
        Access::Forward { user_id }
    } else {
        Access::Reject
    }
}

} // verus!
