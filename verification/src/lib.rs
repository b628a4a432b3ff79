//! Server-side transport layer for a live-view style interactive UI protocol.
//!
//! A browser client first fetches a bootstrap HTML document, then upgrades to
//! a persistent duplex connection over which opaque binary payloads flow in
//! both directions.  This crate provides the verified core of that layer:
//! the bidirectional frame transform between transport messages and raw byte
//! buffers, the bootstrap document generation, the per-connection session
//! pool with its lifecycle and isolation guarantees, and the route-binding
//! model that ties each registered route to its own session pool.

pub mod bootstrap;
pub mod error;
pub mod frame;
pub mod router;
pub mod session;
