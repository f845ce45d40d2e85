//! Verified core of a liquidity-provision and swap proxy that sits between
//! end users and an external automated-market-making pool.
//!
//! The proxy dispatches multi-step asset-transfer operations to external
//! counterparties that report completion asynchronously, correlated by a
//! request id.  This crate holds the decision logic as pure, verified state
//! transitions: the request-id allocator, the continuation ledger that keeps
//! pending operations across the dispatch/notification gap, the time-locked
//! vesting ledger with its claim engine, and the orchestration engine that
//! picks the next sub-operation for each user action or completion
//! notification.  The surrounding host performs storage, queries and message
//! encoding, and hands this crate plain values.

pub mod config;
pub mod continuations;
pub mod engine;
pub mod entry;
pub mod error;
pub mod ids;
pub mod math;
pub mod types;
pub mod vesting;
