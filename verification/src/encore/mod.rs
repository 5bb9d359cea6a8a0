//! Operations that encode and decode byte strings.

pub mod base32hex;
pub mod base64;
pub mod codec;
pub mod errors;
pub mod hexadecimal;
pub mod hexcodec;
pub mod laws;
pub mod operation;
