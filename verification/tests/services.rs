use server::domain::models::{Destination, EntityForSave, UtcTimestamp};
use server::errors::remote_repository_error::{
    PostgresError, PostgresErrorKind, RedisError, RemoteRepositoryError,
};
use server::errors::remote_service_error::{Handler, RemoteServiceError, SerdeError};
use server::infrastructure::local_repositories::file_repository::{
    frame_raw_order, parse_raw_orders,
};
use server::infrastructure::local_repositories::in_memory_repository::InMemoryReposiory;
use server::infrastructure::services::{
    background_action, finish_retry, restore_raw_orders, retry_interval_secs, save_order_outcome,
    BackgroundAction, BackgroundEvent,
};
use server::models::delivery::Delivery;
use server::models::model::Order;
use server::models::payment::Payment;
use std::collections::VecDeque;

fn order(uid: &str) -> Order {
    Order::new(
        uid.to_string(),
        "TRACK".to_string(),
        "WBIL".to_string(),
        Delivery::new("n".into(), "p".into(), "z".into(), "c".into(), "a".into(), "r".into(), "e".into()),
        Payment::new("t".into(), None, "USD".into(), "wbpay".into(), 1, 2, "alpha".into(), 3, 4, 5),
        vec![],
        "en".to_string(),
        None,
        "test".to_string(),
        "meest".to_string(),
        "9".to_string(),
        99,
        UtcTimestamp { secs: 0, nanos: 0 },
        "1".to_string(),
    )
}

fn uids(memory: &InMemoryReposiory, dest: Destination) -> Vec<String> {
    memory.get_raw_orders(dest).iter().map(|o| o.get_order_uid().to_string()).collect()
}

fn pg(kind: PostgresErrorKind) -> RemoteServiceError {
    RemoteServiceError::RemoteRepositoryErrors(RemoteRepositoryError::PostgresErrors(PostgresError {
        message: "pg".to_string(),
        kind,
    }))
}

fn redis() -> RemoteServiceError {
    RemoteServiceError::RemoteRepositoryErrors(RemoteRepositoryError::RedisErrors(RedisError {
        message: "redis".to_string(),
    }))
}

fn unique_redis() -> RemoteServiceError {
    RemoteServiceError::RemoteRepositoryErrors(RemoteRepositoryError::RedisUniqueErrorAndPosgresOk)
}

#[test]
fn successful_save_keeps_nothing() {
    let mut m = InMemoryReposiory::new();
    assert!(save_order_outcome(&mut m, order("a"), Ok(())).is_ok());
    assert!(uids(&m, Destination::Postgres).is_empty());
    assert!(uids(&m, Destination::Redis).is_empty());
}

#[test]
fn postgres_outage_keeps_order_for_postgres() {
    let mut m = InMemoryReposiory::new();
    let r = save_order_outcome(&mut m, order("a"), Err(pg(PostgresErrorKind::Other)));
    let resp = r.unwrap_err();
    assert_eq!(resp.handler(), Handler::AddOrder);
    assert_eq!(uids(&m, Destination::Postgres), vec!["a"]);
    assert!(uids(&m, Destination::Redis).is_empty());
}

#[test]
fn database_refusal_keeps_nothing_and_answers_on_get_order() {
    let mut m = InMemoryReposiory::new();
    let err = pg(PostgresErrorKind::Database { message: "dup".into(), unique_violation: true });
    let resp = save_order_outcome(&mut m, order("a"), Err(err.clone())).unwrap_err();
    assert_eq!(resp.handler(), Handler::GetOrder);
    assert_eq!(resp.err(), &err);
    assert!(uids(&m, Destination::Postgres).is_empty());
}

#[test]
fn redis_outage_keeps_order_for_redis() {
    let mut m = InMemoryReposiory::new();
    let resp = save_order_outcome(&mut m, order("a"), Err(redis())).unwrap_err();
    assert_eq!(resp.handler(), Handler::AddOrder);
    assert_eq!(uids(&m, Destination::Redis), vec!["a"]);
    assert!(uids(&m, Destination::Postgres).is_empty());
}

#[test]
fn redis_already_holding_uid_counts_as_saved() {
    let mut m = InMemoryReposiory::new();
    assert!(save_order_outcome(&mut m, order("a"), Err(unique_redis())).is_ok());
    assert!(uids(&m, Destination::Redis).is_empty());
}

#[test]
fn serialization_failure_keeps_nothing() {
    let mut m = InMemoryReposiory::new();
    let err = RemoteServiceError::SerderError(SerdeError { message: "bad".into() });
    let resp = save_order_outcome(&mut m, order("a"), Err(err)).unwrap_err();
    assert_eq!(resp.handler(), Handler::AddOrder);
    assert!(uids(&m, Destination::Postgres).is_empty());
    assert!(uids(&m, Destination::Redis).is_empty());
}

#[test]
fn failed_retry_moves_order_to_the_back() {
    let mut m = InMemoryReposiory::new();
    m.save_raw_order(Destination::Postgres, order("a"));
    m.save_raw_order(Destination::Postgres, order("b"));
    let first = m.take_next(Destination::Postgres).unwrap();
    assert_eq!(first.get_order_uid(), "a");
    assert!(finish_retry(&mut m, Destination::Postgres, first, &Err(pg(PostgresErrorKind::Other))));
    assert_eq!(uids(&m, Destination::Postgres), vec!["b", "a"]);
}

#[test]
fn successful_or_duplicate_retry_drops_order() {
    let mut m = InMemoryReposiory::new();
    m.save_raw_order(Destination::Postgres, order("a"));
    m.save_raw_order(Destination::Postgres, order("b"));
    let a = m.take_next(Destination::Postgres).unwrap();
    assert!(!finish_retry(&mut m, Destination::Postgres, a, &Ok(())));
    let b = m.take_next(Destination::Postgres).unwrap();
    let dup = pg(PostgresErrorKind::Database { message: "dup".into(), unique_violation: true });
    assert!(!finish_retry(&mut m, Destination::Postgres, b, &Err(dup)));
    assert!(uids(&m, Destination::Postgres).is_empty());
    assert!(m.take_next(Destination::Postgres).is_none());
}

#[test]
fn redis_retry_keeps_on_postgres_unique_but_drops_on_redis_unique() {
    let mut m = InMemoryReposiory::new();
    let dup_pg = pg(PostgresErrorKind::Database { message: "dup".into(), unique_violation: true });
    assert!(finish_retry(&mut m, Destination::Redis, order("a"), &Err(dup_pg)));
    assert!(!finish_retry(&mut m, Destination::Redis, order("b"), &Err(unique_redis())));
    assert!(!finish_retry(&mut m, Destination::Postgres, order("c"), &Err(unique_redis())));
    assert_eq!(uids(&m, Destination::Redis), vec!["a"]);
    assert!(uids(&m, Destination::Postgres).is_empty());
}

#[test]
fn restore_keeps_parsed_orders_in_order() {
    let mut m = InMemoryReposiory::new();
    m.save_raw_order(Destination::Redis, order("old"));
    restore_raw_orders(&mut m, Some(vec![Some(order("a")), None, Some(order("b"))]), None);
    assert_eq!(uids(&m, Destination::Postgres), vec!["a", "b"]);
    assert!(uids(&m, Destination::Redis).is_empty());
}

#[test]
fn save_raw_orders_replaces_both_queues() {
    let mut m = InMemoryReposiory::new();
    m.save_raw_order(Destination::Postgres, order("x"));
    m.save_raw_orders((VecDeque::from(vec![order("p")]), VecDeque::from(vec![order("r1"), order("r2")])));
    assert_eq!(uids(&m, Destination::Postgres), vec!["p"]);
    assert_eq!(uids(&m, Destination::Redis), vec!["r1", "r2"]);
}

#[test]
fn background_tasks_retry_on_tick_and_save_on_cancel() {
    assert_eq!(background_action(BackgroundEvent::Tick), BackgroundAction::RetryOne);
    assert_eq!(background_action(BackgroundEvent::Cancelled), BackgroundAction::SaveToFileAndStop);
    assert_eq!(retry_interval_secs(Destination::Postgres), 10);
    assert_eq!(retry_interval_secs(Destination::Redis), 30);
}

#[test]
fn shutdown_then_startup_restores_the_queue() {
    // Shutdown: each waiting order is written as its text (here its uid).
    let mut before = InMemoryReposiory::new();
    for uid in ["a", "b", "c"] {
        before.save_raw_order(Destination::Redis, order(uid));
    }
    let mut file = String::new();
    for o in before.get_raw_orders(Destination::Redis).iter() {
        file.push_str(&frame_raw_order(o.get_order_uid().to_string()));
    }
    // Start-up: the file is read back and each text decoded.
    let texts = parse_raw_orders(&file).unwrap();
    let decoded: Vec<Option<Order>> = texts.iter().map(|t| Some(order(t))).collect();
    let mut after = InMemoryReposiory::new();
    restore_raw_orders(&mut after, None, Some(decoded));
    assert_eq!(uids(&after, Destination::Redis), uids(&before, Destination::Redis));
    assert!(uids(&after, Destination::Postgres).is_empty());
}
