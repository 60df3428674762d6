//! A Prometheus exporter for sonnen batteries: the configuration, the model
//! of what a battery reports, and the samples that are exported from it.
pub mod text;
pub mod json;
pub mod sonnen_reader;
pub mod config;
pub mod handlers;
pub mod laws;
pub mod behaviour;
