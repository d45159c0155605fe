//! A persistent gauge service: named integer gauges that can be created,
//! incremented, decremented and listed, with their values kept in a database
//! and mirrored into an up/down metric.
//!
//! This crate holds the service's logic. The request handlers are state
//! machines (`handler`) that say which database operation to perform next and
//! what to answer; `store` states, against a model of the gauge table, what a
//! whole request does to the table, to the reply and to the metric.
pub mod text;
pub mod config;
pub mod status;
pub mod model;
pub mod action;
pub mod metric;
pub mod handler;
pub mod store;
pub mod tracer;
