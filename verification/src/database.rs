//! What the service keeps about its users.

pub mod user;
