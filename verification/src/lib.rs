//! A geography-aware DNS forwarding proxy, verified.
//!
//! Queries arriving over UDP are routed to an upstream nameserver chosen by
//! the most specific configured CIDR zone containing the client's address;
//! replies are correlated back to the original client by DNS transaction ID.
//! This crate holds the routing, correlation and decision logic; the
//! surrounding process owns the sockets and threads.

pub mod net;
pub mod packet;
pub mod correlation;
pub mod queue;
pub mod zones;
pub mod dispatch;
pub mod worker;
pub mod json;
pub mod config;
pub mod laws;
