//! The request-facing services: authentication, user accounts and the chat relay.

pub mod auth;
pub mod idl;
pub mod openai;
pub mod user;
