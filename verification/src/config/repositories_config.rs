use vstd::prelude::*;

verus! {

/// The settings of the three repositories.
#[derive(Clone, Debug, PartialEq, Eq)]
pub struct RepositoriesConfig {
    pub postgres_config: PostgresRepoConfig,
    pub redis_config: RedisRepoConfig,
    pub local_config: LocalRepoConfig,
}

/// The files that keep unsaved orders over a restart: `path1` for those
/// still owed to Postgres, `path2` for those owed to Redis alone.
#[derive(Clone, Debug, PartialEq, Eq)]
pub struct LocalRepoConfig {
    pub path1: String,
    pub path2: String,
}

/// How to reach Postgres and size its pool.
#[derive(Clone, Debug, PartialEq, Eq)]
pub struct PostgresRepoConfig {
    pub host: String,
    pub port: u16,
    pub login: String,
    pub password: String,
    pub db: String,
    pub max_connections: u32,
    pub idle_timeout_sec: u64,
    pub max_lifetime_sec: u64,
}

/// How to reach Redis and size its pool.
#[derive(Clone, Debug, PartialEq, Eq)]
pub struct RedisRepoConfig {
    pub host: String,
    pub port: u16,
    pub password: String,
    pub db: i64,
    pub max_connections: usize,
    pub wait: u64,
    pub create: u64,
}

/// The settings of the Postgres pool.
#[derive(Clone, Copy, Debug, PartialEq, Eq, Structural)]
pub struct PostgresPoolSettings {
    pub max_lifetime_secs: u64,
    pub idle_timeout_secs: u64,
    pub max_connections: u32,
    pub test_before_acquire: bool,
    pub acquire_timeout_secs: u64,
}

/// The settings of the Redis pool; no recycle timeout is set.
#[derive(Clone, Copy, Debug, PartialEq, Eq, Structural)]
pub struct RedisPoolSettings {
    pub max_size: usize,
    pub wait_timeout_secs: u64,
    pub create_timeout_secs: u64,
}

/// Seconds a Postgres connection may be waited for.
pub const POSTGRES_ACQUIRE_TIMEOUT_SECS: u64 = 3;

impl PostgresRepoConfig {
    /// The pool keeps connections at most `max_lifetime_sec`, idle at most
    /// `idle_timeout_sec`, holds at most `max_connections`, tests each
    /// connection before handing it out and waits 3 seconds for one.
    pub fn pool_settings(&self) -> (r: PostgresPoolSettings)
        ensures
            r == (PostgresPoolSettings {
                max_lifetime_secs: self.max_lifetime_sec,
                idle_timeout_secs: self.idle_timeout_sec,
                max_connections: self.max_connections,
                test_before_acquire: true,
                acquire_timeout_secs: POSTGRES_ACQUIRE_TIMEOUT_SECS,
            }),
    {
        PostgresPoolSettings {
            max_lifetime_secs: self.max_lifetime_sec,
            idle_timeout_secs: self.idle_timeout_sec,
            max_connections: self.max_connections,
            test_before_acquire: true,
            acquire_timeout_secs: POSTGRES_ACQUIRE_TIMEOUT_SECS,
        }
    }
}

impl RedisRepoConfig {
    /// The pool holds at most `max_connections`, waits `wait` seconds for a
    /// connection and `create` seconds to open one.
    pub fn pool_settings(&self) -> (r: RedisPoolSettings)
        ensures
            r == (RedisPoolSettings {
                max_size: self.max_connections,
                wait_timeout_secs: self.wait,
                create_timeout_secs: self.create,
            }),
    {
        RedisPoolSettings {
            max_size: self.max_connections,
            wait_timeout_secs: self.wait,
            create_timeout_secs: self.create,
        }
    }
}

} // verus!
