//! Iteration rebalancing: a per-developer workload ledger, label classification,
//! move eligibility and the planner that decides which issues leave the current
//! iteration, with the text of the batched update request.

pub mod ledger;
pub mod text;
pub mod models;
pub mod labels;
pub mod iteration;
pub mod logic;
pub mod mutation;
pub mod laws;
pub mod args;
