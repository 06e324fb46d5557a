//! Decision logic of an HTTP client's network thread, of the TLS tunnels that it
//! opens through proxies, and of the paint service that routes messages to painters.
//!
//! Every function here computes on plain values. Sockets, TLS engines, painters
//! and channels are named by handles; whoever owns them performs the actions that
//! the functions return and reports what came of them.

pub mod error;
pub mod paint;
mod seqs;
pub mod thread;
pub mod tunnel;
