//! The network thread of the HTTP client.

pub mod abort_tracker;
pub mod admission;
pub mod array_map;
pub mod body_buffer;
pub mod connect;
pub mod drain;
pub mod http_thread;
pub mod laws;
pub mod outcomes;
pub mod ssl_cache;
pub mod startup;
