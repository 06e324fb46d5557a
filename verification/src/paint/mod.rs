//! The paint service: it keeps the painters, routes messages to them and answers
//! requests for keys.

pub mod batch;
pub mod capture;
pub mod commands;
pub mod finish;
pub mod ids;
pub mod laws;
pub mod memory;
pub mod messages;
pub mod outcomes;
pub mod paint;
pub mod repaint;
pub mod routing;
pub mod shutdown;
