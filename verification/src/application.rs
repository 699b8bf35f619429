//! The flows that tie the record store to the trust boundary.

pub mod service;
