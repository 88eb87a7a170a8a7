//! The request and response shapes of the three endpoints.

use vstd::prelude::*;

use crate::engine::EngineCreateOutput;

verus! {

/// A block height on the target chain.
pub type BlockNumber = u32;

/// The login request body.
pub struct AuthRequest {
    pub username: String,
    pub password: String,
}

/// The create request body: how many blocks the wallet stays valid,
/// the current height, and the hex-encoded round verification key.
pub struct CreateRequest {
    pub validity: u32,
    pub current_block: BlockNumber,
    pub round_pubkey: String,
}

/// The execute request body: the encoded inner call and the current
/// height.
pub struct ExecuteRequest {
    pub runtime_call: Vec<u8>,
    pub current_block: BlockNumber,
}

/// What a successful create returns: the creator's username and what
/// the engine produced, echoed for client-side backup.
pub struct CreateResponse {
    pub username: String,
    pub create_data: EngineCreateOutput,
}

/// What a successful execute returns: the username and the signed
/// payload the engine prepared.
pub struct ExecuteResponse {
    pub username: String,
    pub proxy_data: Vec<u8>,
}

} // verus!
