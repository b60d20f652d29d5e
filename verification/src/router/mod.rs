//! The rules of the request handlers.

pub mod api;
