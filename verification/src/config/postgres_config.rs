use vstd::prelude::*;

verus! {

/// How to reach Postgres, in the first version of the settings.
#[derive(Clone, Debug, PartialEq, Eq)]
pub struct PostgresConfig {
    pub user: String,
    pub password: String,
    pub db: String,
    pub host: String,
    pub port: u16,
    pub connect_timeout: u64,
}

} // verus!
