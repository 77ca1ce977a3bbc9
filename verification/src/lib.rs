//! Wallet-based sign-in challenges for Solana accounts.
//!
//! A challenge record is serialized to a canonical text, the wallet signs
//! that text, and the verifier recomputes the text and checks the claimed
//! Ed25519 signature against the public key encoded in the record's address.

pub mod ext;
pub mod nonce;
pub mod record;

pub use nonce::generate_nonce;
pub use record::create_gate_message;
pub use record::GateResponseObject;
