//! Storage power, pledge and reward arithmetic for a storage-proof network,
//! together with the bookkeeping that reports on the consistency of actor state.

pub mod bigint;
pub mod bitfield;
pub mod init;
pub mod invariants;
pub mod miner;
pub mod report;
pub mod reward;
pub mod smooth;
pub mod state;
pub mod stats;
pub mod text;
pub mod token;
pub mod wire;
