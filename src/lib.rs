//! A typed client for a remote package catalog: resolution of package groups
//! and free-text package search, with the conversions between the service's
//! wire schema and the domain model, and the classification of failures.
pub mod api;
pub mod client;
pub mod command;
pub mod error;
pub mod model;
pub mod text;
