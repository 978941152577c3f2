//! Payment records for a multi-cell deployment, and the probe that measures
//! how long a write in one cell takes to become visible in its peer cell.

pub mod account;
pub mod attempt;
pub mod cassandra;
pub mod config;
pub mod cql;
pub mod dynamo;
pub mod enums;
pub mod error;
pub mod ident;
pub mod intent;
pub mod memory;
pub mod metrics;
pub mod notifier;
pub mod payload;
pub mod poller;
pub mod probe;
pub mod redis;
pub mod service;
pub mod statement;
pub mod store;
pub mod text;
