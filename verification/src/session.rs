//! The session carrier and the authorization gate.
//!
//! After login the client holds two tokens, the username and the seed;
//! the server keeps no copy. A request is authorized exactly when both
//! tokens arrive with it; their values are taken at face value, with
//! no further check.

use vstd::prelude::*;

use crate::error::ApiError;

verus! {

/// The two identity tokens emitted at login and carried by the client
/// on every later request.
pub struct SessionTokens {
    pub username: String,
    pub seed: String,
}

/// The authenticated identity read back from the two tokens.
pub struct Session {
    pub username: String,
    pub seed: String,
}

/// How each identity token is attached to the transport: valid for
/// every path, usable cross-origin (no same-site restriction), and
/// only over a secured connection.
pub struct TokenAttributes {
    pub path: String,
    pub same_site_none: bool,
    pub secure: bool,
}

/// The attributes both identity tokens are emitted with.
pub fn token_attributes() -> (r: TokenAttributes)
    ensures
        r.path@ == "/"@,
        r.same_site_none,
        r.secure,
{
    TokenAttributes { path: String::from_str("/"), same_site_none: true, secure: true }
}

/// Whether both identity tokens are present: necessary and sufficient
/// for a request to be authorized.
pub open spec fn session_present(username: Option<String>, seed: Option<String>) -> bool {
    username is Some && seed is Some
}

/// Reads the identity from the inbound tokens: present exactly when
/// both tokens are, with their values taken at face value.
pub fn read_session(username: Option<String>, seed: Option<String>) -> (r: Option<Session>)
    ensures
        r is Some <==> (username is Some && seed is Some),
        r matches Some(s) ==> s.username == username.unwrap() && s.seed == seed.unwrap(),
{
    match (username, seed) {
        (Some(u), Some(s)) => Some(Session { username: u, seed: s }),
        _ => None,
    }
}

/// The authorization gate: with both tokens present it hands the
/// identity to `handler` and forwards the result untouched; with
/// either token missing it fails with `Unauthorized` and the handler
/// is never invoked.
pub fn authorize<R, F: FnOnce(String, String) -> Result<R, ApiError>>(
    username: Option<String>,
    seed: Option<String>,
    handler: F,
) -> (r: Result<R, ApiError>)
    requires
        username is Some && seed is Some ==> call_requires(
            handler,
            (username.unwrap(), seed.unwrap()),
        ),
    ensures
        username is None || seed is None ==> r == Err::<R, ApiError>(ApiError::Unauthorized),
        username is Some && seed is Some ==> call_ensures(
            handler,
            (username.unwrap(), seed.unwrap()),
            r,
        ),
{
    match read_session(username, seed) {
        Some(session) => handler(session.username, session.seed),
        None => Err(ApiError::Unauthorized),
    }
}

} // verus!
