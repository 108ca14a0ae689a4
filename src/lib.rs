//! A scheduler that splits an exchange-annotated query plan into per-node
//! fragments for a cluster, plus helpers that build typed columns.

pub mod expression;
pub mod plan;
pub mod cluster;
pub mod column;
pub mod error;
pub mod fetch;
pub mod scheduler;

