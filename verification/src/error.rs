//! The error taxonomy every workflow failure is recovered into, and
//! its translation to an HTTP-facing status and message pair.

use vstd::prelude::*;

use crate::engine::{engine_error_message, engine_message_spec, EngineError};
use crate::store;

verus! {

/// A workflow failure, as surfaced to the client.
#[derive(Debug)]
pub enum ApiError {
    /// An identity token was missing, so the request was rejected
    /// before any work.
    Unauthorized,
    /// Malformed client-supplied encoding.
    BadRequest(String),
    /// No wallet state exists for the username; distinct from every
    /// engine failure.
    NoWallet,
    /// The engine failed with the given kind.
    Engine(EngineError),
    /// The store reported a fault.
    Store(store::Error),
}

/// The HTTP status each failure is surfaced with.
pub open spec fn status_spec(e: ApiError) -> u16 {
    match e {
        ApiError::Unauthorized => 403,
        ApiError::BadRequest(_) => 400,
        ApiError::NoWallet => 500,
        ApiError::Engine(_) => 500,
        ApiError::Store(_) => 500,
    }
}

/// The message each failure is surfaced with.
pub open spec fn api_message_spec(e: ApiError) -> Seq<char> {
    match e {
        ApiError::Unauthorized => "Not authenticated"@,
        ApiError::BadRequest(m) => m@,
        ApiError::NoWallet => "No Murmur Store for username"@,
        ApiError::Engine(k) => engine_message_spec(k),
        ApiError::Store(s) => store::error_message_spec(s),
    }
}

impl ApiError {
    /// The HTTP status code for this failure.
    pub fn status_code(&self) -> (r: u16)
        ensures
            r == status_spec(*self),
    {
        match self {
            ApiError::Unauthorized => 403,
            ApiError::BadRequest(_) => 400,
            ApiError::NoWallet => 500,
            ApiError::Engine(_) => 500,
            ApiError::Store(_) => 500,
        }
    }

    /// The message body for this failure.
    pub fn message(&self) -> (r: String)
        ensures
            r@ == api_message_spec(*self),
    {
        match self {
            ApiError::Unauthorized => String::from_str("Not authenticated"),
            ApiError::BadRequest(m) => m.clone(),
            ApiError::NoWallet => String::from_str("No Murmur Store for username"),
            ApiError::Engine(k) => engine_error_message(k),
            ApiError::Store(s) => s.message(),
        }
    }
}

} // verus!
