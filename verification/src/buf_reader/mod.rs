//! A reader that buffers what it reads, so that data can be looked at before it is consumed.

pub mod buf_read;
pub mod buf_read_ext;
pub mod buf_reader;
pub mod passthrough;
