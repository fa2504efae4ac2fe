//! A proof-of-work primitive shared by an on-chain verifier and an off-chain
//! miner: a recursive SHA-256 hash chain, a target predicate, a time-based
//! difficulty state machine, a submission check and a nonce search.

pub mod difficulty;
pub mod hex;
pub mod miner;
pub mod pow;
pub mod submission;
