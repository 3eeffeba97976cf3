//! Verified core of a small wallet-gateway service: address validation,
//! coin-unit arithmetic, the airdrop orchestration flow with its
//! amount-ceiling policy, and the mapping of every failure to a status
//! code and message. Network transport is left to an unverified shell,
//! which drives the flow one adapter call at a time.

pub mod address;
pub mod errors;
pub mod flow;
pub mod model;
pub mod units;
