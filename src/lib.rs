//! Persistence core of a desktop productivity timer: timer settings, tasks
//! with their accumulated worked time, and an append-only audit trail of
//! worked sessions, with the schema plan of the relational store behind them.

pub mod laws;
pub mod model;
pub mod schema;
pub mod store;

mod clock;
