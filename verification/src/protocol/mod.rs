//! Wire protocol types: the envelope, payloads, and the exact byte layouts that get signed.
pub mod envelope;
pub mod input;
pub mod action;
pub mod session;
pub mod settings;
pub mod signing;
pub mod pairing;
pub mod profile;
pub mod telemetry;
