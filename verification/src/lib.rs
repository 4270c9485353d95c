//! An event-sourced bank-account aggregate core.
//!
//! Commands are validated against state that is rebuilt by folding the
//! aggregate's committed events; accepted commands emit new events, which an
//! append-only [`engine::EventLog`] admits only under an optimistic
//! concurrency check. Balances are fixed-point integers (minor units), so
//! replay is exact on every machine.

pub mod aggregate;
pub mod commands;
pub mod engine;
pub mod errors;
pub mod events;
pub mod services;
