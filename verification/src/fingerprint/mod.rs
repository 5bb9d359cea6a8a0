//! Reading a captured ClientHello off the wire and reducing it to a JA4-style fingerprint.

pub mod client_hello;
pub mod digest;
pub mod ja4;
pub mod laws;
pub mod parser;
pub mod parser_laws;
pub mod record;
pub mod sorting;
