//! Off-chain keeper core for timed prediction rounds: batch planning,
//! orchestration state machines, transaction submission policy, account
//! decoding, address derivation and audit-log pipeline policy.

pub mod audit;
pub mod codec;
pub mod feed;
pub mod instructions;
pub mod ops;
pub mod orchestrator;
pub mod pda;
pub mod planner;
pub mod reader;
pub mod submit;
pub mod types;
pub mod wallet;
