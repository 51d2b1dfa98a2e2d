use vstd::prelude::*;

verus! {

/// What the logic reads of a failed Postgres call.
#[derive(Clone, Debug, PartialEq, Eq)]
pub enum PostgresErrorKind {
    /// The database itself refused the statement; `message` is the
    /// database's own report, `unique_violation` whether a unique
    /// constraint was violated.
    Database { message: String, unique_violation: bool },
    /// A query that expects one row found none.
    RowNotFound,
    /// Anything else: the connection, the pool, a timeout, decoding.
    Other,
}

/// A failed Postgres call: its report and its kind.
#[derive(Clone, Debug, PartialEq, Eq)]
pub struct PostgresError {
    pub message: String,
    pub kind: PostgresErrorKind,
}

/// A failed Redis call, by its report.
#[derive(Clone, Debug, PartialEq, Eq)]
pub struct RedisError {
    pub message: String,
}

/// Errors of the remote repository (Postgres and Redis).
#[derive(Clone, Debug, PartialEq, Eq)]
pub enum RemoteRepositoryError {
    PostgresErrors(PostgresError),
    RedisErrors(RedisError),
    /// Postgres stored the order but Redis already held its uid.
    RedisUniqueErrorAndPosgresOk,
}

/// Where an order that was found came from: Redis gives its text, Postgres
/// gives the order and the report of the Redis error that sent the lookup
/// there.
pub enum RemoteRepositoryResponse<T> {
    OrderFromRedis(String),
    OrderFromPostgres(T, String),
}

/// The report of an order whose uid Redis already held.
pub open spec fn redis_unique_message() -> Seq<char> {
    "This order_uid exists in Radis\n"@
}

impl RemoteRepositoryError {
    /// Postgres refused the order because its uid already exists.
    pub open spec fn spec_is_unique_postgres_err(self) -> bool {
        self matches RemoteRepositoryError::PostgresErrors(e) && e.kind matches PostgresErrorKind::Database {
            unique_violation,
            ..
        } && unique_violation
    }

    /// The text of the error.
    pub open spec fn spec_message(self) -> Seq<char> {
        match self {
            RemoteRepositoryError::PostgresErrors(e) => e.message@,
            RemoteRepositoryError::RedisErrors(e) => e.message@,
            RemoteRepositoryError::RedisUniqueErrorAndPosgresOk => redis_unique_message(),
        }
    }

    /// Checks whether Postgres refused the order because its uid already exists.
    pub fn is_unique_postgres_err(&self) -> (r: bool)
        ensures
            r == self.spec_is_unique_postgres_err(),
    {
        match self {
            RemoteRepositoryError::PostgresErrors(err) => match &err.kind {
                PostgresErrorKind::Database { unique_violation, .. } => *unique_violation,
                _ => false,
            },
            _ => false,
        }
    }

    /// Checks whether Redis already held the order's uid.
    pub fn is_unique_redis_err(&self) -> (r: bool)
        ensures
            r == self is RedisUniqueErrorAndPosgresOk,
    {
        match self {
            RemoteRepositoryError::RedisUniqueErrorAndPosgresOk => true,
            _ => false,
        }
    }

    /// The text of the error.
    pub fn message(&self) -> (r: String)
        ensures
            r@ == self.spec_message(),
    {
        match self {
            RemoteRepositoryError::PostgresErrors(e) => e.message.clone(),
            RemoteRepositoryError::RedisErrors(e) => e.message.clone(),
            RemoteRepositoryError::RedisUniqueErrorAndPosgresOk => String::from_str(
                "This order_uid exists in Radis\n",
            ),
        }
    }
}

} // verus!
