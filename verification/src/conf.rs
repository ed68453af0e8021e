//! The settings of the service.

use crate::db::Charge;
use vstd::prelude::*;

verus! {

/// All settings.
#[derive(Debug)]
pub struct Config {
    /// The web front end.
    pub web: WebConfig,
    /// The exchange account.
    pub coinmotion: CoinMotionConfig,
    /// The charges that can be paid.
    pub charges: Vec<Charge>,
}

/// Settings of the web front end.
#[derive(Debug)]
pub struct WebConfig {
    /// The port to listen on.
    pub http_port: u32,
    /// The salt of the short ids in payment links.
    pub hashids_salt: String,
    /// The address under which the payment pages are reached.
    pub base_url: String,
}

/// The credentials of the exchange account.
#[derive(Debug, Clone)]
pub struct CoinMotionConfig {
    /// The key that names the account.
    pub api_key: String,
    /// The secret that requests are signed with.
    pub api_secret: String,
}

} // verus!
