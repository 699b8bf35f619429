//! The records that the trust boundary reads and hands on.

pub mod enums;
pub mod models;
