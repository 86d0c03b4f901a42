//! Answers "what is my client IP?" from the headers of a request, and derives
//! the address to listen on from the environment.

pub mod config;
pub mod decimal;
pub mod header_map;
pub mod headers;
