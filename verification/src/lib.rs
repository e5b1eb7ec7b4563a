//! Core of a data-feed oracle: the domain model of feeds and data points, the
//! aggregation step that turns a fetched point into a verified one, the feed
//! registry, and the decisions behind the HTTP API.

pub mod domain;
pub mod error;
pub mod state;
pub mod aggregation;
pub mod api;
pub mod sources;
pub mod laws;
