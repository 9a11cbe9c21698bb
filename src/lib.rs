//! Solana helpers behind a JSON service: keypair generation, Ed25519 message
//! signing and verification, and the instructions of lamport transfers and of
//! the token program, each with a success flag and a failure reason.
pub mod chain;
pub mod codec;
pub mod crypto;
pub mod keypair;
pub mod message;
pub mod token;
pub mod transfer;
