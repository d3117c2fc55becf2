//! Verified core of the siege-tower monitoring backend: configuration
//! resolution, the built-in tower catalogue, the finite-element mesh
//! topology, soil classification and request-parameter handling.

pub mod config;
pub mod database;
pub mod fem;
pub mod ground;
pub mod handlers;
pub mod models;
