//! Votor timing budget and a model of a banking-stage pipeline whose
//! latency is measured against that budget.

pub mod decimal;
pub mod jitter;
pub mod metrics;
pub mod pipeline;
pub mod votor;
pub mod votor_budget;
pub mod workload;

pub use votor_budget::{
    VotorBudget, BLOCK_MS, LEADER_WINDOW_SLOTS, NETWORK_ROUND_MS, SYNCHRONY_BOUND_MS, TIMEOUT_MS,
};
