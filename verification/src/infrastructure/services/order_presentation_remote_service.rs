use crate::errors::remote_repository_error::RemoteRepositoryResponse;
use crate::errors::remote_service_error::{RemoteServiceError, SerdeError};
use vstd::prelude::*;

verus! {

/// The service in front of the remote repository (Postgres and Redis).
#[derive(Clone)]
pub struct RemoteService<R> {
    repo: R,
}

impl<R> RemoteService<R> {
    pub fn new(repo: R) -> (r: Self)
        ensures
            r.spec_repo() == repo,
    {
        Self { repo }
    }

    pub closed spec fn spec_repo(&self) -> R {
        self.repo
    }

    /// The repository behind the service.
    pub fn repo(&self) -> (r: &R)
        ensures
            *r == self.spec_repo(),
    {
        &self.repo
    }
}

impl<T> RemoteRepositoryResponse<T> {
    /// The text of the order when it came from Redis, still to be decoded.
    pub fn redis_text(&self) -> (r: Option<&String>)
        ensures
            match self {
                RemoteRepositoryResponse::OrderFromRedis(text) => r == Some(text),
                RemoteRepositoryResponse::OrderFromPostgres(..) => r is None,
            },
    {
        match self {
            RemoteRepositoryResponse::OrderFromRedis(text) => Some(text),
            RemoteRepositoryResponse::OrderFromPostgres(..) => None,
        }
    }
}

/// The answer of a lookup, once the text from Redis (if it came from
/// there) was decoded into `decoded`: the order, with the report of the
/// Redis error when it came from Postgres instead.
pub fn finish_get_order<T>(
    response: RemoteRepositoryResponse<T>,
    decoded: Option<Result<T, SerdeError>>,
) -> (r: Result<(T, Option<String>), RemoteServiceError>)
    requires
        response is OrderFromRedis <==> decoded is Some,
    ensures
        match response {
            RemoteRepositoryResponse::OrderFromPostgres(order, context) => r == Ok::<
                (T, Option<String>),
                RemoteServiceError,
            >((order, Some(context))),
            RemoteRepositoryResponse::OrderFromRedis(_) => match decoded {
                Some(Ok(order)) => r == Ok::<(T, Option<String>), RemoteServiceError>(
                    (order, None),
                ),
                Some(Err(e)) => r == Err::<(T, Option<String>), RemoteServiceError>(
                    RemoteServiceError::SerderError(e),
                ),
                None => false,
            },
        },
{
    match response {
        RemoteRepositoryResponse::OrderFromRedis(_) => match decoded {
            Some(Ok(order)) => Ok((order, None)),
            Some(Err(e)) => Err(RemoteServiceError::SerderError(e)),
            None => {
                proof {
                    assert(false);
                }
                Err(RemoteServiceError::SerderError(SerdeError { message: String::new() }))
            },
        },
        RemoteRepositoryResponse::OrderFromPostgres(order, context) => Ok((order, Some(context))),
    }
}

} // verus!
