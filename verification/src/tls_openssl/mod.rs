//! Translating a handshake profile for the OpenSSL engine.

pub mod certs_store;
pub mod configuration;
pub mod laws;
pub mod native;
pub mod settings;
pub mod translation;
pub mod utils;
