//! Write-query intermediate representation and connector dispatch.
//!
//! The library models the mutation algebra of a schema-driven query engine:
//! a closed set of write nodes (create, update, delete, connect, raw, upsert)
//! together with the projection and filter/selector protocol a planner uses
//! to fuse parent and child mutations, and the dispatcher that binds a parsed
//! datasource to a connector with a per-dialect transaction policy.

pub mod args;
pub mod error;
pub mod filter;
pub mod load_executor;
pub mod model;
pub mod write;
