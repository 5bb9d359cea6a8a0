//! Profiles that reproduce the handshake of known clients.

pub mod curl_7_61_1;
