use server::config::repositories_config::{
    PostgresPoolSettings, PostgresRepoConfig, RedisPoolSettings, RedisRepoConfig,
};
use server::infrastructure::services::order_presentation_local_service::LocalService;
use server::repo::redis::RedisRepo;
use server::state::state::read_row_data_outcome;
use server::utils::parsed::keep_parsed;

#[test]
fn postgres_pool_settings() {
    let c = PostgresRepoConfig {
        host: "localhost".into(),
        port: 5432,
        login: "u".into(),
        password: "p".into(),
        db: "orders".into(),
        max_connections: 16,
        idle_timeout_sec: 60,
        max_lifetime_sec: 600,
    };
    assert_eq!(
        c.pool_settings(),
        PostgresPoolSettings {
            max_lifetime_secs: 600,
            idle_timeout_secs: 60,
            max_connections: 16,
            test_before_acquire: true,
            acquire_timeout_secs: 3,
        }
    );
}

#[test]
fn redis_pool_settings() {
    let c = RedisRepoConfig {
        host: "localhost".into(),
        port: 6379,
        password: "p".into(),
        db: 0,
        max_connections: 8,
        wait: 2,
        create: 5,
    };
    assert_eq!(c.pool_settings(), RedisPoolSettings { max_size: 8, wait_timeout_secs: 2, create_timeout_secs: 5 });
}

#[test]
fn keep_parsed_drops_failures_in_order() {
    assert_eq!(keep_parsed(vec![Some(1), None, Some(3), None]), vec![1, 3]);
    assert_eq!(keep_parsed::<u8>(vec![]), Vec::<u8>::new());
}

#[test]
fn read_row_data_outcome_keeps_parsed_orders() {
    assert!(read_row_data_outcome(None).is_none());
    assert_eq!(read_row_data_outcome(Some(vec![None])), Some(vec![]));
}

#[test]
fn constructors_hold_their_parts() {
    let s = LocalService::new(5u8);
    assert_eq!(*s.repo(), 5);
    assert_eq!(RedisRepo::new(()), RedisRepo());
}
