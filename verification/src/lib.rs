//! Core of a wallet-creation service: seed derivation, session gate,
//! wallet-state store, and the create/execute request workflows.
//!
//! The external engine that performs the cryptographic wallet
//! construction is modelled as a collaborator: the workflows compute
//! everything handed to it and consume whatever it returns.

pub mod engine;
pub mod error;
pub mod hexcodec;
pub mod seed;
pub mod session;
pub mod store;
pub mod translate;
pub mod types;
pub mod workflow;
