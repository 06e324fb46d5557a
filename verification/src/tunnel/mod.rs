//! TLS tunnels through HTTP proxies.

pub mod callbacks;
pub mod client;
pub mod heap;
pub mod laws;
pub mod outcomes;
pub mod proxy_tunnel;
pub mod socket;
pub mod stream_buffer;
