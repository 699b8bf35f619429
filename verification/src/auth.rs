//! Credentials and sessions: password hashing, signed time-bounded tokens and
//! the guard in front of every protected route.

pub mod gate;
pub mod header;
pub mod password;
pub mod session;
pub mod token;
