//! An in-memory item store with the request handling rules around it.

pub mod config;
pub mod file_config;
pub mod routing;
pub mod schemas;
pub mod store;
pub mod text;
pub mod types;
pub mod version;
