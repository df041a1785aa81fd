//! The engine: authentication, pairing, the device registry, layouts and request handling.
pub mod actions;
pub mod admin_client;
pub mod config;
pub mod discovery;
pub mod dispatch;
pub mod engine;
pub mod error;
pub mod identity;
pub mod input_dispatch;
pub mod pairing;
pub mod registry;
pub mod server;
pub mod service;
pub mod session;
pub mod store;
pub mod telemetry;
