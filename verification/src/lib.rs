//! A client library for Discord-compatible chat servers: the gateway protocol
//! (hello, dispatch, heartbeats), event observers, and the reaction endpoints
//! of the HTTP API, with their decisions proved against their contracts.

pub mod api;
pub mod gateway;
pub mod observer;
pub mod snowflake;
mod text;
