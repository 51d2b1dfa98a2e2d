use super::remote_repository_error::{
    redis_unique_message, PostgresError, PostgresErrorKind, RemoteRepositoryError,
};
use crate::models::responses::{
    OrderResponse, OrderResponseModel, OrderStatus, STATUS_CONFLICT, STATUS_INTERNAL_SERVER_ERROR,
    STATUS_MULTI_STATUS, STATUS_NOT_FOUND,
};
use vstd::prelude::*;

verus! {

/// A failed serialization or deserialization of an order, by its report.
#[derive(Clone, Debug, PartialEq, Eq)]
pub struct SerdeError {
    pub message: String,
}

/// Errors of the remote service.
#[derive(Clone, Debug, PartialEq, Eq)]
pub enum RemoteServiceError {
    RemoteRepositoryErrors(RemoteRepositoryError),
    SerderError(SerdeError),
}

/// The endpoint an error is answered on.
#[derive(Clone, Copy, Debug, PartialEq, Eq, Structural)]
pub enum Handler {
    AddOrder,
    GetOrder,
}

/// An error together with the endpoint that answers it.
#[derive(Clone, Debug, PartialEq, Eq)]
pub struct RemoteServiceErrorResponse {
    handler: Handler,
    err: RemoteServiceError,
}

impl RemoteServiceError {
    pub open spec fn spec_is_unique_postgres_err(self) -> bool {
        self matches RemoteServiceError::RemoteRepositoryErrors(e) && e.spec_is_unique_postgres_err()
    }

    pub open spec fn spec_is_unique_redis_err(self) -> bool {
        self matches RemoteServiceError::RemoteRepositoryErrors(e)
            && e is RedisUniqueErrorAndPosgresOk
    }

    /// The text of the error.
    pub open spec fn spec_message(self) -> Seq<char> {
        match self {
            RemoteServiceError::RemoteRepositoryErrors(e) => e.spec_message(),
            RemoteServiceError::SerderError(e) => e.message@,
        }
    }

    /// Checks whether Postgres refused the order because its uid already exists.
    pub fn is_unique_postgres_err(&self) -> (r: bool)
        ensures
            r == self.spec_is_unique_postgres_err(),
    {
        match self {
            RemoteServiceError::RemoteRepositoryErrors(err) => err.is_unique_postgres_err(),
            _ => false,
        }
    }

    /// Checks whether Redis already held the order's uid.
    pub fn is_unique_redis_err(&self) -> (r: bool)
        ensures
            r == self.spec_is_unique_redis_err(),
    {
        match self {
            RemoteServiceError::RemoteRepositoryErrors(err) => err.is_unique_redis_err(),
            _ => false,
        }
    }

    /// The text of the error.
    pub fn message(&self) -> (r: String)
        ensures
            r@ == self.spec_message(),
    {
        match self {
            RemoteServiceError::RemoteRepositoryErrors(err) => err.message(),
            RemoteServiceError::SerderError(err) => err.message.clone(),
        }
    }
}

impl From<RemoteRepositoryError> for RemoteServiceError {
    fn from(value: RemoteRepositoryError) -> (r: Self)
        ensures
            r == RemoteServiceError::RemoteRepositoryErrors(value),
    {
        RemoteServiceError::RemoteRepositoryErrors(value)
    }
}

impl vstd::std_specs::convert::FromSpecImpl<RemoteRepositoryError> for RemoteServiceError {
    open spec fn obeys_from_spec() -> bool {
        true
    }

    open spec fn from_spec(v: RemoteRepositoryError) -> RemoteServiceError {
        RemoteServiceError::RemoteRepositoryErrors(v)
    }
}

impl From<SerdeError> for RemoteServiceError {
    fn from(value: SerdeError) -> (r: Self)
        ensures
            r == RemoteServiceError::SerderError(value),
    {
        RemoteServiceError::SerderError(value)
    }
}

impl vstd::std_specs::convert::FromSpecImpl<SerdeError> for RemoteServiceError {
    open spec fn obeys_from_spec() -> bool {
        true
    }

    open spec fn from_spec(v: SerdeError) -> RemoteServiceError {
        RemoteServiceError::SerderError(v)
    }
}

/// A reply body that carries only errors and a status.
pub open spec fn error_body(
    postgres_err: Option<Seq<char>>,
    redis_err: Option<Seq<char>>,
    serde_err: Option<Seq<char>>,
    order_status: OrderStatus,
) -> OrderResponseModel {
    OrderResponseModel { order: None, postgres_err, redis_err, serde_err, order_status }
}

/// The one error that no endpoint answers: the lookup of an order never
/// reports that Redis already held its uid.
pub open spec fn is_answerable(handler: Handler, err: RemoteServiceError) -> bool {
    !(handler is GetOrder && (err matches RemoteServiceError::RemoteRepositoryErrors(e)
        && e is RedisUniqueErrorAndPosgresOk))
}

/// The HTTP status and body that answer `err` on `handler`.
pub open spec fn error_reply(handler: Handler, err: RemoteServiceError) -> (u16, OrderResponseModel) {
    match err {
        RemoteServiceError::SerderError(e) => (
            STATUS_INTERNAL_SERVER_ERROR,
            error_body(None, None, Some(e.message@), OrderStatus::NotAccepted),
        ),
        RemoteServiceError::RemoteRepositoryErrors(repo_err) => match repo_err {
            RemoteRepositoryError::PostgresErrors(e) => match handler {
                Handler::AddOrder => match e.kind {
                    PostgresErrorKind::Database { message, .. } => (
                        STATUS_CONFLICT,
                        error_body(Some(message@), None, None, OrderStatus::NotAccepted),
                    ),
                    _ => (
                        STATUS_INTERNAL_SERVER_ERROR,
                        error_body(Some(e.message@), None, None, OrderStatus::WillBeAccepted),
                    ),
                },
                Handler::GetOrder => match e.kind {
                    PostgresErrorKind::RowNotFound => (
                        STATUS_NOT_FOUND,
                        error_body(Some(e.message@), None, None, OrderStatus::NotAccepted),
                    ),
                    _ => (
                        STATUS_INTERNAL_SERVER_ERROR,
                        error_body(Some(e.message@), None, None, OrderStatus::Unknown),
                    ),
                },
            },
            RemoteRepositoryError::RedisErrors(e) => match handler {
                Handler::AddOrder => (
                    STATUS_MULTI_STATUS,
                    error_body(None, Some(e.message@), None, OrderStatus::Accepted),
                ),
                Handler::GetOrder => (
                    STATUS_INTERNAL_SERVER_ERROR,
                    error_body(None, Some(e.message@), None, OrderStatus::Unknown),
                ),
            },
            RemoteRepositoryError::RedisUniqueErrorAndPosgresOk => (
                STATUS_MULTI_STATUS,
                error_body(None, Some(redis_unique_message()), None, OrderStatus::Unknown),
            ),
        },
    }
}

/// A lookup is answered "not found" (404) exactly when Postgres found no
/// row; any other Postgres failure of a lookup, a database refusal
/// included, is answered 500 with the order's status unknown. A conflict
/// (409) answers only a save that the database refused.
pub proof fn lemma_error_reply_statuses(h: Handler, err: RemoteServiceError, pg: PostgresError)
    requires
        is_answerable(h, err),
    ensures
        error_reply(h, err).0 == STATUS_NOT_FOUND <==> (h is GetOrder && (err matches RemoteServiceError::RemoteRepositoryErrors(
            RemoteRepositoryError::PostgresErrors(e),
        ) && e.kind is RowNotFound)),
        error_reply(h, err).0 == STATUS_CONFLICT <==> (h is AddOrder && (err matches RemoteServiceError::RemoteRepositoryErrors(
            RemoteRepositoryError::PostgresErrors(e),
        ) && e.kind is Database)),
        !(pg.kind is RowNotFound) ==> error_reply(
            Handler::GetOrder,
            RemoteServiceError::RemoteRepositoryErrors(RemoteRepositoryError::PostgresErrors(pg)),
        ).0 == STATUS_INTERNAL_SERVER_ERROR && error_reply(
            Handler::GetOrder,
            RemoteServiceError::RemoteRepositoryErrors(RemoteRepositoryError::PostgresErrors(pg)),
        ).1.order_status == OrderStatus::Unknown,
        error_reply(h, err).1.order is None,
{
}

impl RemoteServiceErrorResponse {
    pub fn new(handler: Handler, err: RemoteServiceError) -> (r: Self)
        ensures
            r.spec_handler() == handler,
            r.spec_err() == err,
    {
        Self { handler, err }
    }

    pub closed spec fn spec_handler(&self) -> Handler {
        self.handler
    }

    pub closed spec fn spec_err(&self) -> RemoteServiceError {
        self.err
    }

    pub fn handler(&self) -> (r: Handler)
        ensures
            r == self.spec_handler(),
    {
        self.handler
    }

    pub fn err(&self) -> (r: &RemoteServiceError)
        ensures
            *r == self.spec_err(),
    {
        &self.err
    }

    /// The text of the error.
    pub fn message(&self) -> (r: String)
        ensures
            r@ == self.spec_err().spec_message(),
    {
        self.err.message()
    }

    /// The HTTP status and the body that answer the error.
    pub fn to_response(self) -> (r: (u16, OrderResponse))
        requires
            is_answerable(self.spec_handler(), self.spec_err()),
        ensures
            r.0 == error_reply(self.spec_handler(), self.spec_err()).0,
            r.1@ == error_reply(self.spec_handler(), self.spec_err()).1,
            r.1@.order is None,
            r.0 == STATUS_NOT_FOUND <==> (self.spec_handler() is GetOrder && (self.spec_err() matches RemoteServiceError::RemoteRepositoryErrors(
                RemoteRepositoryError::PostgresErrors(e),
            ) && e.kind is RowNotFound)),
            self.spec_err() matches RemoteServiceError::RemoteRepositoryErrors(
                RemoteRepositoryError::PostgresErrors(e),
            ) ==> (self.spec_handler() is GetOrder && !(e.kind is RowNotFound) ==> r.0
                == STATUS_INTERNAL_SERVER_ERROR && r.1@.order_status == OrderStatus::Unknown
                && r.1@.postgres_err == Some(e.message@)),
            self.spec_err() matches RemoteServiceError::RemoteRepositoryErrors(
                RemoteRepositoryError::PostgresErrors(e),
            ) ==> (self.spec_handler() is GetOrder && e.kind is RowNotFound ==> r.0
                == STATUS_NOT_FOUND && r.1@.order_status == OrderStatus::NotAccepted
                && r.1@.postgres_err == Some(e.message@)),
    {
        let handler = self.handler;
        match self.err {
            RemoteServiceError::SerderError(e) => (
                STATUS_INTERNAL_SERVER_ERROR,
                OrderResponse::new(None, None, None, Some(e.message), OrderStatus::NotAccepted),
            ),
            RemoteServiceError::RemoteRepositoryErrors(repo_err) => match repo_err {
                RemoteRepositoryError::PostgresErrors(e) => match handler {
                    Handler::AddOrder => match e.kind {
                        PostgresErrorKind::Database { message, .. } => (
                            STATUS_CONFLICT,
                            OrderResponse::new(
                                None,
                                Some(message),
                                None,
                                None,
                                OrderStatus::NotAccepted,
                            ),
                        ),
                        _ => (
                            STATUS_INTERNAL_SERVER_ERROR,
                            OrderResponse::new(
                                None,
                                Some(e.message),
                                None,
                                None,
                                OrderStatus::WillBeAccepted,
                            ),
                        ),
                    },
                    Handler::GetOrder => match e.kind {
                        PostgresErrorKind::RowNotFound => (
                            STATUS_NOT_FOUND,
                            OrderResponse::new(
                                None,
                                Some(e.message),
                                None,
                                None,
                                OrderStatus::NotAccepted,
                            ),
                        ),
                        _ => (
                            STATUS_INTERNAL_SERVER_ERROR,
                            OrderResponse::new(
                                None,
                                Some(e.message),
                                None,
                                None,
                                OrderStatus::Unknown,
                            ),
                        ),
                    },
                },
                RemoteRepositoryError::RedisErrors(e) => match handler {
                    Handler::AddOrder => (
                        STATUS_MULTI_STATUS,
                        OrderResponse::new(None, None, Some(e.message), None, OrderStatus::Accepted),
                    ),
                    Handler::GetOrder => (
                        STATUS_INTERNAL_SERVER_ERROR,
                        OrderResponse::new(None, None, Some(e.message), None, OrderStatus::Unknown),
                    ),
                },
                RemoteRepositoryError::RedisUniqueErrorAndPosgresOk => {
                    let message = RemoteRepositoryError::RedisUniqueErrorAndPosgresOk.message();
                    (
                        STATUS_MULTI_STATUS,
                        OrderResponse::new(None, None, Some(message), None, OrderStatus::Unknown),
                    )
                },
            },
        }
    }
}

} // verus!
