//! The request orchestrator: the login step and the create and
//! execute workflows. Each workflow is split around the engine
//! invocation: a preparation step checks the session and computes
//! everything the engine needs, and a completion step consumes
//! whatever the engine returned, persists state, and shapes the
//! response or the error.

use vstd::prelude::*;

use crate::engine::{EngineCreateOutput, EngineError};
use crate::error::ApiError;
use crate::hexcodec::{bytes_of_hex, is_valid_hex};
use crate::seed::{derive_seed, seed_of};
use crate::session::{authorize, session_present, SessionTokens};
use crate::store::Store;
use crate::translate::{bad_pubkey_message, pubkey_to_bytes, stripped_spec};
use crate::types::{
    AuthRequest, BlockNumber, CreateRequest, CreateResponse, ExecuteRequest, ExecuteResponse,
};

verus! {

/// The block schedule for a new wallet: `validity` consecutive
/// heights, starting two blocks after the current one so the wallet
/// can activate.
pub open spec fn schedule_spec(current: BlockNumber, validity: u32) -> Seq<BlockNumber> {
    Seq::new(validity as nat, |i: int| (current + 2 + i) as BlockNumber)
}

/// Computes the block schedule for a new wallet.
pub fn compute_schedule(current: BlockNumber, validity: u32) -> (r: Vec<BlockNumber>)
    requires
        current + validity + 1 <= u32::MAX,
    ensures
        r@ == schedule_spec(current, validity),
{
    let mut r: Vec<BlockNumber> = Vec::new();
    let mut i: u32 = 0;
    while i < validity
        invariant
            i <= validity,
            current + validity + 1 <= u32::MAX,
            r@.len() == i as nat,
            forall|k: int| 0 <= k < i ==> r@[k] == current + 2 + k,
        decreases validity - i,
    {
        r.push(current + 2 + i);
        i += 1;
    }
    proof {
        assert(r@ =~= schedule_spec(current, validity));
    }
    r
}

/// The login step: derives the seed from the credentials and the
/// server salt and emits the two identity tokens the client will
/// carry. The server keeps no copy.
pub fn authenticate(request: &AuthRequest, salt: &[u8; 16]) -> (tokens: SessionTokens)
    ensures
        tokens.username@ == request.username@,
        tokens.seed@ == seed_of(request.username@, request.password@, salt@),
{
    let seed = derive_seed(request.username.as_str(), request.password.as_str(), salt);
    SessionTokens { username: request.username.clone(), seed }
}

/// Everything the engine's create call needs.
pub struct CreateParams {
    pub username: String,
    pub seed: String,
    pub round_pubkey_bytes: Vec<u8>,
    pub schedule: Vec<BlockNumber>,
}

/// The message surfaced when the verification key does not decode.
pub open spec fn create_bad_request_message(pubkey: Seq<char>) -> Seq<char> {
    "`request.round_pubkey`: "@ + bad_pubkey_message(stripped_spec(pubkey))
}

/// The first half of the create workflow, up to the engine call:
/// fails closed without a full session, decodes the verification key,
/// and computes the block schedule.
pub fn prepare_create(
    username_token: Option<String>,
    seed_token: Option<String>,
    request: &CreateRequest,
) -> (r: Result<CreateParams, ApiError>)
    requires
        request.current_block + request.validity + 1 <= u32::MAX,
    ensures
        !session_present(username_token, seed_token) ==> r == Err::<CreateParams, ApiError>(
            ApiError::Unauthorized,
        ),
        session_present(username_token, seed_token) && !is_valid_hex(
            stripped_spec(request.round_pubkey@),
        ) ==> (r matches Err(e) && e matches ApiError::BadRequest(m) && m@
            == create_bad_request_message(request.round_pubkey@)),
        session_present(username_token, seed_token) && is_valid_hex(
            stripped_spec(request.round_pubkey@),
        ) ==> (r matches Ok(p) && p.username == username_token.unwrap() && p.seed
            == seed_token.unwrap() && p.round_pubkey_bytes@ == bytes_of_hex(
            stripped_spec(request.round_pubkey@),
        ) && p.schedule@ == schedule_spec(request.current_block, request.validity)),
{
    let handler = |username: String, seed: String| -> (res: Result<CreateParams, ApiError>)
        requires
            request.current_block + request.validity + 1 <= u32::MAX,
        ensures
            !is_valid_hex(stripped_spec(request.round_pubkey@)) ==> (res matches Err(e) && e
                matches ApiError::BadRequest(m) && m@ == create_bad_request_message(
                request.round_pubkey@,
            )),
            is_valid_hex(stripped_spec(request.round_pubkey@)) ==> (res matches Ok(p) && p.username
                == username && p.seed == seed && p.round_pubkey_bytes@ == bytes_of_hex(
                stripped_spec(request.round_pubkey@),
            ) && p.schedule@ == schedule_spec(request.current_block, request.validity)),
        {
            let round_pubkey_bytes = match pubkey_to_bytes(request.round_pubkey.as_str()) {
                Ok(b) => b,
                Err(m) => {
                    return Err(
                        ApiError::BadRequest(String::from_str("`request.round_pubkey`: ").concat(
                            m.as_str(),
                        )),
                    );
                },
            };
            let schedule = compute_schedule(request.current_block, request.validity);
            Ok(CreateParams { username, seed, round_pubkey_bytes, schedule })
        };
    authorize(username_token, seed_token, handler)
}

/// The second half of the create workflow: translates an engine
/// failure, or persists the new wallet state and shapes the response.
/// A persistence failure is an overall failure: the client is not
/// told the creation succeeded unless the state was stored.
pub fn finish_create(
    store: &mut Store,
    username: String,
    engine_result: Result<EngineCreateOutput, EngineError>,
) -> (r: Result<CreateResponse, ApiError>)
    requires
        old(store).wf(),
    ensures
        final(store).wf(),
        engine_result matches Err(e) ==> (final(store)@ == old(store)@ && r == Err::<
            CreateResponse,
            ApiError,
        >(ApiError::Engine(e))),
        engine_result matches Ok(out) ==> (final(store)@ == old(store)@.insert(
            username@,
            out.wallet_state@,
        ) && (r matches Ok(resp) && resp.username == username && resp.create_data == out)),
{
    match engine_result {
        Ok(out) => {
            match store.write(username.clone(), &out.wallet_state) {
                Ok(_) => Ok(CreateResponse { username, create_data: out }),
                Err(e) => Err(ApiError::Store(e)),
            }
        },
        Err(e) => Err(ApiError::Engine(e)),
    }
}

/// Everything the engine's prepare-execute call needs.
pub struct ExecuteParams {
    pub username: String,
    pub seed: String,
    pub wallet_state: Vec<u8>,
    pub runtime_call: Vec<u8>,
    pub target_block: BlockNumber,
}

/// The first half of the execute workflow, up to the engine call:
/// fails closed without a full session, retrieves the caller's wallet
/// state — a missing wallet is its own error, distinct from every
/// engine failure — and targets the next block.
pub fn prepare_execute(
    store: &Store,
    username_token: Option<String>,
    seed_token: Option<String>,
    request: &ExecuteRequest,
) -> (r: Result<ExecuteParams, ApiError>)
    requires
        store.wf(),
        request.current_block < u32::MAX,
    ensures
        !session_present(username_token, seed_token) ==> r == Err::<ExecuteParams, ApiError>(
            ApiError::Unauthorized,
        ),
        session_present(username_token, seed_token) && !store@.contains_key(
            username_token.unwrap()@,
        ) ==> r == Err::<ExecuteParams, ApiError>(ApiError::NoWallet),
        session_present(username_token, seed_token) && store@.contains_key(
            username_token.unwrap()@,
        ) ==> (r matches Ok(p) && p.username == username_token.unwrap() && p.seed
            == seed_token.unwrap() && p.wallet_state@ == store@[username_token.unwrap()@]
            && p.runtime_call@ == request.runtime_call@ && p.target_block == request.current_block
            + 1),
{
    let handler = |username: String, seed: String| -> (res: Result<ExecuteParams, ApiError>)
        requires
            store.wf(),
            request.current_block < u32::MAX,
        ensures
            !store@.contains_key(username@) ==> res == Err::<ExecuteParams, ApiError>(
                ApiError::NoWallet,
            ),
            store@.contains_key(username@) ==> (res matches Ok(p) && p.username == username
                && p.seed == seed && p.wallet_state@ == store@[username@] && p.runtime_call@
                == request.runtime_call@ && p.target_block == request.current_block + 1),
        {
            let wallet_state = match store.load(&username) {
                Ok(Some(w)) => w,
                Ok(None) => {
                    return Err(ApiError::NoWallet);
                },
                Err(e) => {
                    return Err(ApiError::Store(e));
                },
            };
            let runtime_call = request.runtime_call.clone();
            proof {
                assert forall|i: int| 0 <= i < runtime_call@.len() implies runtime_call@[i]
                    == request.runtime_call@[i] by {
                }
                assert(runtime_call@ =~= request.runtime_call@);
            }
            let target_block = request.current_block + 1;
            Ok(ExecuteParams { username, seed, wallet_state, runtime_call, target_block })
        };
    authorize(username_token, seed_token, handler)
}

/// The second half of the execute workflow: translates an engine
/// failure, or shapes the signed payload into the response.
pub fn finish_execute(username: String, engine_result: Result<Vec<u8>, EngineError>) -> (r: Result<
    ExecuteResponse,
    ApiError,
>)
    ensures
        engine_result matches Ok(payload) ==> (r matches Ok(resp) && resp.username == username
            && resp.proxy_data == payload),
        engine_result matches Err(e) ==> r == Err::<ExecuteResponse, ApiError>(
            ApiError::Engine(e),
        ),
{
    match engine_result {
        Ok(payload) => Ok(ExecuteResponse { username, proxy_data: payload }),
        Err(e) => Err(ApiError::Engine(e)),
    }
}

} // verus!
