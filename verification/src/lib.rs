//! Credential checks, bearer tokens and a frame-for-frame chat relay for a small HTTP backend.
//!
//! The library holds the decisions of the backend and none of its I/O:
//!
//! - [`config`]: the three settings of the process, all required.
//! - [`database::user`]: a stored credential, and what the credential store can answer.
//! - [`service::idl`]: the bodies of requests and responses.
//! - [`service::auth`]: signing claims into a bearer token, and accepting or refusing a token.
//! - [`service::user`]: registration and login, each as a machine that is told what the store
//!   answered and says what to do next.
//! - [`service::openai`]: the request that opens the upstream chat, and the relay that passes
//!   its frames on one by one until the upstream stops.
//!
//! Everything is verified but for four calls into other crates, which stand behind private
//! functions whose contracts are taken on trust: signing and decoding a token and reading the
//! clock (`jsonwebtoken`), and parsing a URL (`url`). Their outcomes are named by the
//! uninterpreted functions [`service::auth::signed_token`], [`service::auth::token_payload`]
//! and [`service::openai::parsed_url`]; the contracts of the public functions are stated over
//! these names.

pub mod config;
pub mod database;
pub mod service;
