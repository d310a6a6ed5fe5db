//! Start-up configuration values.

use vstd::prelude::*;
use vstd::string::*;

verus! {

/// Where the database lives.
pub struct Config {
    pub database_url: String,
}

impl Default for Config {
    fn default() -> (config: Self)
        ensures
            config.database_url@ == "sqlite:nocturne.db"@,
    {
        Config { database_url: String::from_str("sqlite:nocturne.db") }
    }
}

/// Runtime settings kept beside the storage handle.
#[derive(Clone)]
pub struct AppConfig {
    pub encryption_key: Option<String>,
}

impl Default for AppConfig {
    fn default() -> (config: Self)
        ensures
            config.encryption_key is None,
    {
        AppConfig { encryption_key: None }
    }
}

} // verus!
