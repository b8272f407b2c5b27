//! Client-side protocol engine for driving an authenticated web session
//! against a target that offers no formal API: session cookies are captured
//! from response headers into a per-session jar, an explicit state machine
//! tracks the login/verify/act sequence, and every decision the engine takes
//! is stated in a contract and verified. Issuing the network calls is left
//! to thin glue around this library.

pub mod account_repository;
pub mod action;
pub mod engine;
pub mod errors;
pub mod jar;
pub mod machine;
pub mod text;
pub mod vpn;
