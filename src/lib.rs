//! Stateless multi-signature authorization core.
//!
//! A configuration holds a set of owner keys, a signing threshold and a
//! replay counter. A request to run a delegated action is authorized only when
//! enough distinct owners have signed the canonical digest of that request, as
//! attested by a signature-verification record produced outside this crate.
pub mod pubkey;
pub mod errors;
pub mod instruction;
pub mod hasher;
pub mod batch;
pub mod ed25519;
pub mod secp256k1;
pub mod config;
pub mod multisig;
pub mod tokens;
pub mod token_multis;
