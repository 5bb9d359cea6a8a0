//! Running scripts through the platform's shell: what is run, with which arguments and in
//! which environment.

pub mod argument;
pub mod environment;
pub mod errors;
pub mod script;
pub mod shell;
