use server::errors::remote_repository_error::{
    PostgresError, PostgresErrorKind, RedisError, RemoteRepositoryError,
};
use server::errors::remote_service_error::{
    Handler, RemoteServiceError, RemoteServiceErrorResponse, SerdeError,
};
use server::errors::service_error::ServiceError;
use server::model::responses::{AddOrderResponse, OrderStatus as OldOrderStatus};
use server::models::responses::{OrderResponse, OrderStatus};

fn pg(kind: PostgresErrorKind) -> RemoteServiceError {
    RemoteServiceError::RemoteRepositoryErrors(RemoteRepositoryError::PostgresErrors(PostgresError {
        message: "error returned from database: duplicate key".to_string(),
        kind,
    }))
}

fn redis() -> RemoteServiceError {
    RemoteServiceError::RemoteRepositoryErrors(RemoteRepositoryError::RedisErrors(RedisError {
        message: "timeout".to_string(),
    }))
}

fn unique_redis() -> RemoteServiceError {
    RemoteServiceError::RemoteRepositoryErrors(RemoteRepositoryError::RedisUniqueErrorAndPosgresOk)
}

fn serde() -> RemoteServiceError {
    RemoteServiceError::SerderError(SerdeError { message: "expected value".to_string() })
}

fn reply(handler: Handler, err: RemoteServiceError) -> (u16, (Option<String>, Option<String>, Option<String>, OrderStatus)) {
    let (status, body) = RemoteServiceErrorResponse::new(handler, err).to_response();
    let (order, p, r, s, st) = body.into_parts();
    assert!(order.is_none());
    (status, (p, r, s, st))
}

#[test]
fn add_order_database_refusal_is_conflict() {
    let (status, body) = reply(
        Handler::AddOrder,
        pg(PostgresErrorKind::Database { message: "duplicate key".to_string(), unique_violation: true }),
    );
    assert_eq!(status, 409);
    assert_eq!(body, (Some("duplicate key".to_string()), None, None, OrderStatus::NotAccepted));
}

#[test]
fn add_order_other_postgres_error_will_be_accepted() {
    let (status, body) = reply(Handler::AddOrder, pg(PostgresErrorKind::Other));
    assert_eq!(status, 500);
    assert_eq!(
        body,
        (Some("error returned from database: duplicate key".to_string()), None, None, OrderStatus::WillBeAccepted)
    );
}

#[test]
fn add_order_redis_error_is_multi_status_accepted() {
    let (status, body) = reply(Handler::AddOrder, redis());
    assert_eq!(status, 207);
    assert_eq!(body, (None, Some("timeout".to_string()), None, OrderStatus::Accepted));
}

#[test]
fn add_order_redis_unique_is_multi_status_unknown() {
    let (status, body) = reply(Handler::AddOrder, unique_redis());
    assert_eq!(status, 207);
    assert_eq!(
        body,
        (None, Some("This order_uid exists in Radis\n".to_string()), None, OrderStatus::Unknown)
    );
}

#[test]
fn serde_error_is_internal_error_on_both_endpoints() {
    for h in [Handler::AddOrder, Handler::GetOrder] {
        let (status, body) = reply(h, serde());
        assert_eq!(status, 500);
        assert_eq!(body, (None, None, Some("expected value".to_string()), OrderStatus::NotAccepted));
    }
}

#[test]
fn get_order_row_not_found_is_not_found() {
    let (status, body) = reply(Handler::GetOrder, pg(PostgresErrorKind::RowNotFound));
    assert_eq!(status, 404);
    assert_eq!(body.3, OrderStatus::NotAccepted);
    assert!(body.0.is_some());
}

#[test]
fn get_order_other_errors_are_internal_unknown() {
    let (status, body) = reply(Handler::GetOrder, pg(PostgresErrorKind::Other));
    assert_eq!(status, 500);
    assert_eq!(body.3, OrderStatus::Unknown);
    let (status, body) = reply(Handler::GetOrder, redis());
    assert_eq!(status, 500);
    assert_eq!(body, (None, Some("timeout".to_string()), None, OrderStatus::Unknown));
}

#[test]
fn order_response_status_follows_redis_error() {
    assert_eq!(OrderResponse::default().status_code(), 200);
    let r = OrderResponse::new(None, None, Some("down".to_string()), None, OrderStatus::Accepted);
    assert!(r.is_redis_err());
    assert_eq!(r.status_code(), 207);
    let r = OrderResponse::new(None, Some("pg".to_string()), None, None, OrderStatus::Unknown);
    assert_eq!(r.status_code(), 200);
}

#[test]
fn defaults_report_accepted() {
    assert_eq!(OrderStatus::default(), OrderStatus::Accepted);
    assert_eq!(OldOrderStatus::default(), OldOrderStatus::Accepted);
    let (order, p, r, s, st) = OrderResponse::default().into_parts();
    assert!(order.is_none() && p.is_none() && r.is_none() && s.is_none());
    assert_eq!(st, OrderStatus::Accepted);
    let a = AddOrderResponse::new(None, Some("x".to_string()), None, OldOrderStatus::WillBeAccepted);
    assert_eq!(a.status_code(), 200);
    assert_eq!(a.into_parts(), (None, Some("x".to_string()), None, OldOrderStatus::WillBeAccepted));
}

#[test]
fn unique_checks_and_messages() {
    let unique_pg = pg(PostgresErrorKind::Database { message: "dup".to_string(), unique_violation: true });
    assert!(unique_pg.is_unique_postgres_err());
    assert!(!unique_pg.is_unique_redis_err());
    let other_db = pg(PostgresErrorKind::Database { message: "fk".to_string(), unique_violation: false });
    assert!(!other_db.is_unique_postgres_err());
    assert!(unique_redis().is_unique_redis_err());
    assert!(!redis().is_unique_redis_err());
    assert!(!serde().is_unique_postgres_err());
    assert_eq!(unique_redis().message(), "This order_uid exists in Radis\n");
    assert_eq!(redis().message(), "timeout");
    assert_eq!(serde().message(), "expected value");
}

#[test]
fn service_error_message_has_context() {
    let e = ServiceError::RepositoryErrors(RemoteRepositoryError::RedisUniqueErrorAndPosgresOk, "save".to_string());
    assert_eq!(e.message(), "Context:save, Error description:This order_uid exists in Radis\n\n");
}
