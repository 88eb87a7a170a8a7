//! The external wallet-construction engine, seen from this core: the
//! error kinds it can report, the fixed translation of each kind into
//! a readable message, and the shape of what a successful creation
//! returns.

use vstd::prelude::*;

verus! {

/// The error kinds the engine reports. `Unknown` stands for any kind
/// this core does not recognise; the translation below is total.
#[derive(Clone, Copy, PartialEq, Eq, Structural, Debug)]
pub enum EngineError {
    ExecuteError,
    MMRError,
    InconsistentStore,
    NoLeafFound,
    NoCiphertextFound,
    TlockFailed,
    InvalidBufferSize,
    InvalidSeed,
    InvalidPubkey,
    Unknown,
}

/// The fixed message each engine error kind is surfaced as.
pub open spec fn engine_message_spec(e: EngineError) -> Seq<char> {
    match e {
        EngineError::ExecuteError => "Murmur: Execute error"@,
        EngineError::MMRError => "Murmur: MMR error"@,
        EngineError::InconsistentStore => "Murmur: Inconsistent store"@,
        EngineError::NoLeafFound => "Murmur: No leaf found"@,
        EngineError::NoCiphertextFound => "Murmur: No ciphertext found"@,
        EngineError::TlockFailed => "Murmur: Tlock failed"@,
        EngineError::InvalidBufferSize => "Murmur: Invalid buffer size"@,
        EngineError::InvalidSeed => "Murmur: Invalid seed"@,
        EngineError::InvalidPubkey => "Murmur: Invalid pubkey"@,
        EngineError::Unknown => "Murmur: Unknown error"@,
    }
}

/// Translates an engine error kind into its surfaced message.
pub fn engine_error_message(e: &EngineError) -> (r: String)
    ensures
        r@ == engine_message_spec(*e),
{
    match e {
        EngineError::ExecuteError => String::from_str("Murmur: Execute error"),
        EngineError::MMRError => String::from_str("Murmur: MMR error"),
        EngineError::InconsistentStore => String::from_str("Murmur: Inconsistent store"),
        EngineError::NoLeafFound => String::from_str("Murmur: No leaf found"),
        EngineError::NoCiphertextFound => String::from_str("Murmur: No ciphertext found"),
        EngineError::TlockFailed => String::from_str("Murmur: Tlock failed"),
        EngineError::InvalidBufferSize => String::from_str("Murmur: Invalid buffer size"),
        EngineError::InvalidSeed => String::from_str("Murmur: Invalid seed"),
        EngineError::InvalidPubkey => String::from_str("Murmur: Invalid pubkey"),
        EngineError::Unknown => String::from_str("Murmur: Unknown error"),
    }
}

/// Law: the error translation is total and always formatted; every
/// kind, the unrecognised one included, maps to a non-empty message
/// that opens with the engine's name.
pub proof fn lemma_engine_message_total(e: EngineError)
    ensures
        engine_message_spec(e).len() > 0,
        engine_message_spec(e).subrange(0, 8) =~= "Murmur: "@,
{
    reveal_strlit("Murmur: ");
    reveal_strlit("Murmur: Execute error");
    reveal_strlit("Murmur: MMR error");
    reveal_strlit("Murmur: Inconsistent store");
    reveal_strlit("Murmur: No leaf found");
    reveal_strlit("Murmur: No ciphertext found");
    reveal_strlit("Murmur: Tlock failed");
    reveal_strlit("Murmur: Invalid buffer size");
    reveal_strlit("Murmur: Invalid seed");
    reveal_strlit("Murmur: Invalid pubkey");
    reveal_strlit("Murmur: Unknown error");
}

/// What a successful engine creation hands back: the signed payload
/// and the wallet state that must be persisted for the user.
pub struct EngineCreateOutput {
    pub payload: Vec<u8>,
    pub wallet_state: Vec<u8>,
}

} // verus!
