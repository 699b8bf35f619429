//! The registry of live connections and the receive loop of each.

pub mod address;
pub mod frame;
pub mod manager;
pub mod push;
