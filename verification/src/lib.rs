//! Load-generation driver for a controllable blockchain test node.
//!
//! The library holds the verified core: configuration validation, nonce
//! allocation, batch building, result aggregation, and the orchestration
//! state machine that drives one run. The unverified binary around it
//! performs the remote calls and hands their outcomes back as events.

pub mod config;
pub mod hexcodec;
pub mod nonce;
pub mod orchestrator;
pub mod outcome;

