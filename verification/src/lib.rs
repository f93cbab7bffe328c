//! Core logic of the secure chat backend: token services, message sealing,
//! request decisions and the request workflows, each with its contract.

pub mod error;
pub mod text;
pub mod models;
pub mod ids;
pub mod services;
pub mod handlers;
pub mod middleware;
pub mod server;
pub mod store;
