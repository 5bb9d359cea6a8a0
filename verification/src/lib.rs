//! Tools for reproducing and checking TLS handshake fingerprints, together with
//! the small utilities that accompany them.

pub mod buf_reader;
pub mod buffer;
pub mod encore;
pub mod fingerprint;
pub mod os_info;
pub mod process_alive;
pub mod shell;
pub mod sqlite_regex;
pub mod sse;
pub mod text;
pub mod tls;
pub mod tls_openssl;
