//! Server-sent events: messages, their wire form, and the order in which a response
//! stream sends them.

pub mod data;
pub mod event;
pub mod responder;
pub mod stream;
