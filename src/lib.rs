//! Tracing of hierarchical runs: identity, trace membership and sortable
//! ordering keys derived from a parent, and the two-phase save of a run
//! through a pluggable strategy.

pub mod config;
pub mod context;
pub mod decorator;
pub mod error;
pub mod factory;
pub mod graph;
pub mod ids;
pub mod json;
pub mod lineage;
pub mod messages;
pub mod observer;
pub mod run;
pub mod scope;
pub mod strategies;
pub mod text;
pub mod time;
pub mod tracer;
