//! Trade-execution orchestration: intents are pulled from a stream, gated by a
//! per-principal indicator filter and, once approved, handed on for signing
//! with a nonce that no other request for the same address receives.

pub mod numeric;
pub mod text;
pub mod payload;
pub mod filters;
pub mod clock;
pub mod job;
pub mod config;
pub mod handler;
pub mod stream;
pub mod worker;
pub mod signer;
pub mod evm;
pub mod solana;
pub mod ta_client;
