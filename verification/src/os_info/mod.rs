//! What is known of the operating system: its kind, version and architecture.

pub mod error;
pub mod info;
pub mod linux;
pub mod macos;
pub mod windows;
