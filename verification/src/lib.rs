//! Automated liquidation of Bitcoin into euros against the Coinmotion exchange.
//!
//! The crate holds the rules of the liquidation worker: how a signed request is
//! built, how a response is decoded, when a cached rate may still be served,
//! which task a heartbeat starts, and which order an account's balances call for.
//! Transport, threads and the web front end live with the caller.

pub mod cache;
pub mod coinmotion;
pub mod conf;
pub mod db;
pub mod de;
pub mod decimal;
pub mod json;
pub mod sign;
pub mod text;
pub mod time;
pub mod worker;
