//! Seed derivation: turns a username, a password and the server salt
//! into the deterministic secret that doubles as the wallet's signing
//! material.

use vstd::prelude::*;

verus! {

/// The fixed, low bcrypt work factor used for seed derivation.
pub const SEED_COST: u32 = 4;

/// What `bcrypt::hash_with_salt` returns: a function of the password,
/// the cost and the salt alone, stable across calls and machines.
pub uninterp spec fn bcrypt_hash_of(password: Seq<char>, cost: u32, salt: Seq<u8>) -> Seq<char>;

/// Relies on `bcrypt::hash_with_salt`: a deterministic salted one-way
/// hash, `Ok` for every cost between 4 and 31, whose formatted hash
/// string is always 60 characters.
#[verifier::external_body]
fn bcrypt_hash(password: &str, cost: u32, salt: &[u8; 16]) -> (r: String)
    requires
        4 <= cost <= 31,
    ensures
        r@ == bcrypt_hash_of(password@, cost, salt@),
        r@.len() == 60,
{
    bcrypt::hash_with_salt(password, cost, *salt).unwrap().to_string()
}

/// The seed derived from a username, a password and a salt: the salted
/// hash of `username:password`.
pub open spec fn seed_of(username: Seq<char>, password: Seq<char>, salt: Seq<u8>) -> Seq<char> {
    bcrypt_hash_of(username + ":"@ + password, SEED_COST, salt)
}

/// Derives the seed for the given credentials. Same inputs always
/// yield the same seed, which the session carries as the long-lived
/// wallet secret.
pub fn derive_seed(username: &str, password: &str, salt: &[u8; 16]) -> (r: String)
    ensures
        r@ == seed_of(username@, password@, salt@),
        r@.len() == 60,
{
    let combined = String::from_str(username).concat(":").concat(password);
    bcrypt_hash(combined.as_str(), SEED_COST, salt)
}

/// Law: seed derivation is deterministic; any two derivations from the
/// same username, password and salt yield the same seed.
pub proof fn lemma_derive_deterministic(
    r1: Seq<char>,
    r2: Seq<char>,
    username: Seq<char>,
    password: Seq<char>,
    salt: Seq<u8>,
)
    requires
        r1 == seed_of(username, password, salt),
        r2 == seed_of(username, password, salt),
    ensures
        r1 == r2,
{
}

} // verus!
