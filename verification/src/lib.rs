//! The trust boundary of a small record service: passwords, bearer tokens and
//! the guard that admits a request, beside the registry of live connections
//! through which the server pushes messages to connected peers.

pub mod application;
pub mod auth;
pub mod domain;
pub mod websocket;
