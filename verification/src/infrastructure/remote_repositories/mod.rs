//! The decisions of the remote repository between its Postgres and Redis
//! calls.
use crate::errors::remote_repository_error::{
    PostgresError, RedisError, RemoteRepositoryError, RemoteRepositoryResponse,
};
use vstd::prelude::*;

pub mod redis_order_repository;

verus! {

/// The repository that stores orders in Postgres and caches them in Redis.
#[derive(Clone)]
pub struct RemoteRepository<P, R> {
    postgres: P,
    redis: R,
}

impl<P, R> RemoteRepository<P, R> {
    pub fn new(postgres: P, redis: R) -> (r: Self)
        ensures
            r.spec_postgres() == postgres,
            r.spec_redis() == redis,
    {
        Self { postgres, redis }
    }

    pub closed spec fn spec_postgres(&self) -> P {
        self.postgres
    }

    pub closed spec fn spec_redis(&self) -> R {
        self.redis
    }

    /// The Postgres repository.
    pub fn postgres(&self) -> (r: &P)
        ensures
            *r == self.spec_postgres(),
    {
        &self.postgres
    }

    /// The Redis repository.
    pub fn redis(&self) -> (r: &R)
        ensures
            *r == self.spec_redis(),
    {
        &self.redis
    }
}

/// The result of saving an order: `postgres` is the answer of Postgres,
/// `redis` that of Redis (`true` when it stored the order, `false` when it
/// already held the uid), asked only after Postgres succeeded.
pub fn save_outcome(
    postgres: Result<(), PostgresError>,
    redis: Option<Result<bool, RedisError>>,
) -> (r: Result<(), RemoteRepositoryError>)
    requires
        postgres is Ok <==> redis is Some,
    ensures
        match postgres {
            Err(e) => r == Err::<(), RemoteRepositoryError>(
                RemoteRepositoryError::PostgresErrors(e),
            ),
            Ok(()) => match redis {
                Some(Ok(true)) => r is Ok,
                Some(Ok(false)) => r == Err::<(), RemoteRepositoryError>(
                    RemoteRepositoryError::RedisUniqueErrorAndPosgresOk,
                ),
                Some(Err(e)) => r == Err::<(), RemoteRepositoryError>(
                    RemoteRepositoryError::RedisErrors(e),
                ),
                None => false,
            },
        },
{
    match postgres {
        Err(e) => Err(RemoteRepositoryError::PostgresErrors(e)),
        Ok(()) => match redis {
            Some(Ok(saved)) => {
                if saved {
                    Ok(())
                } else {
                    Err(RemoteRepositoryError::RedisUniqueErrorAndPosgresOk)
                }
            },
            Some(Err(e)) => Err(RemoteRepositoryError::RedisErrors(e)),
            None => {
                proof {
                    assert(false);
                }
                Ok(())
            },
        },
    }
}

/// The result of saving an order in Redis alone.
pub fn save_in_redis_outcome(redis: Result<bool, RedisError>) -> (r: Result<(), RemoteRepositoryError>)
    ensures
        match redis {
            Ok(true) => r is Ok,
            Ok(false) => r == Err::<(), RemoteRepositoryError>(
                RemoteRepositoryError::RedisUniqueErrorAndPosgresOk,
            ),
            Err(e) => r == Err::<(), RemoteRepositoryError>(RemoteRepositoryError::RedisErrors(e)),
        },
{
    match redis {
        Ok(saved) => {
            if saved {
                Ok(())
            } else {
                Err(RemoteRepositoryError::RedisUniqueErrorAndPosgresOk)
            }
        },
        Err(e) => Err(RemoteRepositoryError::RedisErrors(e)),
    }
}

/// The result of looking an order up: Redis is asked first; only when it
/// fails is Postgres asked, and its order comes with the Redis report.
pub fn get_outcome<T>(
    redis: Result<String, RedisError>,
    postgres: Option<Result<T, PostgresError>>,
) -> (r: Result<RemoteRepositoryResponse<T>, RemoteRepositoryError>)
    requires
        redis is Err <==> postgres is Some,
    ensures
        match redis {
            Ok(text) => r == Ok::<RemoteRepositoryResponse<T>, RemoteRepositoryError>(
                RemoteRepositoryResponse::OrderFromRedis(text),
            ),
            Err(redis_err) => match postgres {
                Some(Ok(order)) => r == Ok::<RemoteRepositoryResponse<T>, RemoteRepositoryError>(
                    RemoteRepositoryResponse::OrderFromPostgres(order, redis_err.message),
                ),
                Some(Err(e)) => r == Err::<RemoteRepositoryResponse<T>, RemoteRepositoryError>(
                    RemoteRepositoryError::PostgresErrors(e),
                ),
                None => false,
            },
        },
{
    match redis {
        Ok(text) => Ok(RemoteRepositoryResponse::OrderFromRedis(text)),
        Err(redis_err) => match postgres {
            Some(Ok(order)) => Ok(
                RemoteRepositoryResponse::OrderFromPostgres(order, redis_err.message),
            ),
            Some(Err(e)) => Err(RemoteRepositoryError::PostgresErrors(e)),
            None => {
                proof {
                    assert(false);
                }
                Ok(RemoteRepositoryResponse::OrderFromRedis(redis_err.message))
            },
        },
    }
}

} // verus!
