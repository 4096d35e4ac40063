//! A verified core for a family of host-monitoring agents.
//!
//! The library covers the decision logic the agents share: parsing compact
//! match-rule expressions, extracting scalars from JSON documents by path
//! query, literal and time-threshold matching, boolean condition gates,
//! per-target orchestration, cron-driven scheduling decisions, and assembly
//! of the log envelope that carries results to a collector. Network and file
//! I/O stay outside; callers hand the library response bodies and receive
//! structured results back.

pub mod agents;
pub mod api;
pub mod condition;
pub mod engine;
pub mod envelope;
pub mod jsonq;
pub mod rule;
pub mod scheduler;
pub mod settings;
pub mod text;
pub mod timecheck;
