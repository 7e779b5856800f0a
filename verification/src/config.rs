//! The configuration surface the projection consumes. Loading and parsing
//! the configuration file belong to the hosting runtime's side; these are
//! the plain values the core works from.

use vstd::prelude::*;

verus! {

/// Connection parameters of the store.
#[derive(Clone, Debug)]
pub struct RedisDbCredentials {
    pub username: String,
    pub password: String,
    pub host: String,
    pub port: String,
    pub database: String,
}

/// The loaded configuration. Optional entries keep their configured value
/// here; defaults are applied when the dispatcher is built from it.
#[derive(Clone, Debug)]
pub struct GeyserConfig {
    pub redis_db_credentials: RedisDbCredentials,
    pub account_data_notifications_enabled: Option<bool>,
    pub transaction_data_notifications_enabled: Option<bool>,
    pub ignore_system_accounts: Option<bool>,
    pub ignore_vote_transactions: Option<bool>,
    /// Base-58 identities forming the account allow-list; absent or empty
    /// means all accounts.
    pub accounts: Option<Vec<String>>,
}

} // verus!
