pub mod amount;
pub mod models;
pub mod errors;
pub mod store;
pub mod service;
pub mod laws;
pub mod routes;
pub mod config;
