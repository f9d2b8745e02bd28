//! Keyword search over a small, fixed catalog of fictional books, exposed as
//! one tool of a request/response tool protocol.
pub mod catalog;
pub mod matcher;
pub mod render;
pub mod server;
pub mod text;
