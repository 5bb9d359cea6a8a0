//! The engine-independent description of a TLS handshake's shape.

pub mod alpn;
pub mod certs_store;
pub mod cipher;
pub mod client;
pub mod compression;
pub mod curve;
pub mod names;
pub mod settings;
pub mod signature;
pub mod version;
