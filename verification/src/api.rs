//! The HTTP API endpoints.

pub mod channels;
