//! Challenge-response authentication: a verifier issues a single-use nonce,
//! a holder signs a message with its Ed25519 key and sends it back with the
//! nonce, and the verifier checks the nonce binding and the signature before
//! rotating the nonce.

pub mod client;
pub mod key;
pub mod laws;
pub mod nonce;
pub mod outcome;
pub mod protocol;
pub mod signature;
