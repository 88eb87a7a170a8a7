use murmur_api::engine::{engine_error_message, EngineCreateOutput, EngineError};
use murmur_api::error::ApiError;
use murmur_api::store::Store;
use murmur_api::types::{AuthRequest, CreateRequest, ExecuteRequest};
use murmur_api::workflow::{
    authenticate, compute_schedule, finish_create, finish_execute, prepare_create, prepare_execute,
};

fn salt() -> [u8; 16] {
    *b"0123456789abcdef"
}

#[test]
fn schedule_for_current_100_validity_5() {
    assert_eq!(compute_schedule(100, 5), vec![102u32, 103, 104, 105, 106]);
}

#[test]
fn schedule_empty_for_zero_validity() {
    assert_eq!(compute_schedule(100, 0), Vec::<u32>::new());
}

#[test]
fn every_engine_error_maps_to_its_message() {
    let cases = [
        (EngineError::ExecuteError, "Murmur: Execute error"),
        (EngineError::MMRError, "Murmur: MMR error"),
        (EngineError::InconsistentStore, "Murmur: Inconsistent store"),
        (EngineError::NoLeafFound, "Murmur: No leaf found"),
        (EngineError::NoCiphertextFound, "Murmur: No ciphertext found"),
        (EngineError::TlockFailed, "Murmur: Tlock failed"),
        (EngineError::InvalidBufferSize, "Murmur: Invalid buffer size"),
        (EngineError::InvalidSeed, "Murmur: Invalid seed"),
        (EngineError::InvalidPubkey, "Murmur: Invalid pubkey"),
        (EngineError::Unknown, "Murmur: Unknown error"),
    ];
    for (kind, expected) in cases {
        let msg = engine_error_message(&kind);
        assert_eq!(msg, expected);
        assert!(!msg.is_empty());
        assert!(msg.starts_with("Murmur: "));
    }
}

#[test]
fn create_without_session_is_unauthorized() {
    let request = CreateRequest { validity: 3, current_block: 10, round_pubkey: "0xabcd".to_string() };
    let r = prepare_create(None, Some("seed".to_string()), &request);
    assert!(matches!(r, Err(ApiError::Unauthorized)));
}

#[test]
fn create_with_bad_pubkey_is_bad_request() {
    let request = CreateRequest { validity: 3, current_block: 10, round_pubkey: "0xzz".to_string() };
    let r = prepare_create(Some("alice".to_string()), Some("seed".to_string()), &request);
    match r {
        Err(e @ ApiError::BadRequest(_)) => {
            assert_eq!(e.status_code(), 400);
            assert_eq!(e.message(), "`request.round_pubkey`: Wrong input `zz`");
        },
        _ => panic!("expected a bad request"),
    }
}

#[test]
fn engine_failure_surfaces_and_leaves_store_untouched() {
    let mut store = Store::init();
    let r = finish_create(&mut store, "alice".to_string(), Err(EngineError::TlockFailed));
    match r {
        Err(e @ ApiError::Engine(_)) => {
            assert_eq!(e.status_code(), 500);
            assert_eq!(e.message(), "Murmur: Tlock failed");
        },
        _ => panic!("expected an engine error"),
    }
    assert_eq!(store.load(&"alice".to_string()).unwrap(), None);
}

#[test]
fn execute_without_wallet_is_a_distinct_error() {
    let store = Store::init();
    let request = ExecuteRequest { runtime_call: vec![1u8, 2], current_block: 11 };
    let r = prepare_execute(&store, Some("alice".to_string()), Some("seed".to_string()), &request);
    match r {
        Err(e @ ApiError::NoWallet) => {
            assert_eq!(e.status_code(), 500);
            assert_eq!(e.message(), "No Murmur Store for username");
        },
        _ => panic!("expected the missing-wallet error"),
    }
}

#[test]
fn end_to_end_create_then_execute() {
    let mut store = Store::init();

    // login
    let auth = AuthRequest { username: "alice".to_string(), password: "pw".to_string() };
    let tokens = authenticate(&auth, &salt());
    assert_eq!(tokens.username, "alice");
    assert_eq!(tokens.seed, murmur_api::seed::derive_seed("alice", "pw", &salt()));

    // create
    let request = CreateRequest { validity: 3, current_block: 10, round_pubkey: "0xabcd".to_string() };
    let params = prepare_create(
        Some(tokens.username.clone()),
        Some(tokens.seed.clone()),
        &request,
    )
    .unwrap();
    assert_eq!(params.username, "alice");
    assert_eq!(params.round_pubkey_bytes, vec![0xabu8, 0xcd]);
    assert_eq!(params.schedule, vec![12u32, 13, 14]);

    let engine_out = EngineCreateOutput { payload: vec![5u8, 6, 7], wallet_state: vec![9u8, 9, 9] };
    let response = finish_create(&mut store, params.username, Ok(engine_out)).unwrap();
    assert_eq!(response.username, "alice");
    assert_eq!(response.create_data.payload, vec![5u8, 6, 7]);
    assert_eq!(store.load(&"alice".to_string()).unwrap(), Some(vec![9u8, 9, 9]));

    // execute with the same tokens
    let request = ExecuteRequest { runtime_call: vec![1u8, 2, 3], current_block: 11 };
    let params = prepare_execute(
        &store,
        Some(tokens.username.clone()),
        Some(tokens.seed.clone()),
        &request,
    )
    .unwrap();
    assert_eq!(params.target_block, 12);
    assert_eq!(params.wallet_state, vec![9u8, 9, 9]);
    assert_eq!(params.runtime_call, vec![1u8, 2, 3]);

    let response = finish_execute(params.username, Ok(vec![42u8])).unwrap();
    assert_eq!(response.username, "alice");
    assert_eq!(response.proxy_data, vec![42u8]);

    // execute for a username that never created a wallet
    let request = ExecuteRequest { runtime_call: vec![1u8], current_block: 11 };
    let r = prepare_execute(&store, Some("mallory".to_string()), Some("seed".to_string()), &request);
    assert!(matches!(r, Err(ApiError::NoWallet)));
}

#[test]
fn execute_engine_failure_is_translated() {
    let r = finish_execute("alice".to_string(), Err(EngineError::NoLeafFound));
    match r {
        Err(e @ ApiError::Engine(_)) => {
            assert_eq!(e.message(), "Murmur: No leaf found");
        },
        _ => panic!("expected an engine error"),
    }
}
