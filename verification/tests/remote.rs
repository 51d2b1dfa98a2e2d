use server::errors::remote_repository_error::{
    PostgresError, PostgresErrorKind, RedisError, RemoteRepositoryError, RemoteRepositoryResponse,
};
use server::errors::remote_service_error::{RemoteServiceError, SerdeError};
use server::infrastructure::remote_repositories::redis_order_repository::{first_value, set_nx_saved};
use server::infrastructure::remote_repositories::{get_outcome, save_in_redis_outcome, save_outcome};
use server::infrastructure::services::order_presentation_remote_service::finish_get_order;

fn pg_err() -> PostgresError {
    PostgresError { message: "no rows".to_string(), kind: PostgresErrorKind::RowNotFound }
}

fn redis_err() -> RedisError {
    RedisError { message: "nil".to_string() }
}

#[test]
fn save_outcome_follows_postgres_then_redis() {
    assert_eq!(save_outcome(Ok(()), Some(Ok(true))), Ok(()));
    assert_eq!(
        save_outcome(Ok(()), Some(Ok(false))),
        Err(RemoteRepositoryError::RedisUniqueErrorAndPosgresOk)
    );
    assert_eq!(
        save_outcome(Ok(()), Some(Err(redis_err()))),
        Err(RemoteRepositoryError::RedisErrors(redis_err()))
    );
    assert_eq!(save_outcome(Err(pg_err()), None), Err(RemoteRepositoryError::PostgresErrors(pg_err())));
}

#[test]
fn save_in_redis_outcome_maps_reply() {
    assert_eq!(save_in_redis_outcome(Ok(true)), Ok(()));
    assert_eq!(save_in_redis_outcome(Ok(false)), Err(RemoteRepositoryError::RedisUniqueErrorAndPosgresOk));
    assert_eq!(save_in_redis_outcome(Err(redis_err())), Err(RemoteRepositoryError::RedisErrors(redis_err())));
}

#[test]
fn lookup_prefers_redis_and_falls_back_to_postgres() {
    match get_outcome::<u32>(Ok("{}".to_string()), None) {
        Ok(RemoteRepositoryResponse::OrderFromRedis(t)) => assert_eq!(t, "{}"),
        _ => panic!("expected the Redis text"),
    }
    match get_outcome::<u32>(Err(redis_err()), Some(Ok(7))) {
        Ok(RemoteRepositoryResponse::OrderFromPostgres(v, ctx)) => {
            assert_eq!(v, 7);
            assert_eq!(ctx, "nil");
        }
        _ => panic!("expected the Postgres order"),
    }
    match get_outcome::<u32>(Err(redis_err()), Some(Err(pg_err()))) {
        Err(e) => assert_eq!(e, RemoteRepositoryError::PostgresErrors(pg_err())),
        Ok(_) => panic!("expected the Postgres error"),
    }
}

#[test]
fn finish_get_order_decodes_redis_and_passes_postgres() {
    let from_redis = RemoteRepositoryResponse::<u32>::OrderFromRedis("7".to_string());
    assert_eq!(from_redis.redis_text(), Some(&"7".to_string()));
    assert_eq!(finish_get_order(from_redis, Some(Ok(7))), Ok((7, None)));
    let from_redis = RemoteRepositoryResponse::<u32>::OrderFromRedis("x".to_string());
    let bad = SerdeError { message: "expected value".to_string() };
    assert_eq!(finish_get_order(from_redis, Some(Err(bad.clone()))), Err(RemoteServiceError::SerderError(bad)));
    let from_pg = RemoteRepositoryResponse::OrderFromPostgres(3u32, "nil".to_string());
    assert!(from_pg.redis_text().is_none());
    assert_eq!(finish_get_order(from_pg, None), Ok((3, Some("nil".to_string()))));
}

#[test]
fn redis_replies() {
    assert!(set_nx_saved(&vec![1]));
    assert!(!set_nx_saved(&vec![0]));
    assert_eq!(first_value(&vec!["a".to_string(), "b".to_string()]), "a");
}
