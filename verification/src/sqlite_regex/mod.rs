//! The `REGEXP` operator for SQLite: patterns are compiled once and kept.

pub mod cache;
pub mod native;
pub mod operator;
pub mod wrapper;
