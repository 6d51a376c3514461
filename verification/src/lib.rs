//! Verified core of the XELIS wallet cipher, contract helpers and miner logic.
pub mod cipher;
pub mod contract;
pub mod crypto;
pub mod encoding;
pub mod merkle;
pub mod miner;
