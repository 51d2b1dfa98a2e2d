//! The decisions of the order service around its remote stores: what a
//! failed save leaves in memory, what a retry does with the order it took,
//! and what the background tasks do on each event.
use crate::domain::models::Destination;
use crate::errors::remote_repository_error::{
    PostgresError, PostgresErrorKind, RemoteRepositoryError,
};
use crate::errors::remote_service_error::{
    is_answerable, Handler, RemoteServiceError, RemoteServiceErrorResponse, SerdeError,
};
use crate::infrastructure::local_repositories::file_repository::{
    framed_all, frames_cleanly, lemma_raw_orders_round_trip, parsed_raw_orders,
};
use crate::infrastructure::local_repositories::in_memory_repository::{
    other_destination, InMemoryReposiory,
};
use crate::models::model::Order;
use crate::utils::parsed::{into_queue, keep_parsed, somes};
use std::collections::VecDeque;
use vstd::prelude::*;

pub mod order_presentation_local_service;
pub mod order_presentation_remote_service;

verus! {

/// The queue in which a failed save leaves the order for a later retry:
/// Postgres (and then Redis) when Postgres failed for a reason other than
/// the database refusing the order, Redis when only Redis failed.
pub open spec fn keeps_for_retry(err: RemoteServiceError) -> Option<Destination> {
    match err {
        RemoteServiceError::RemoteRepositoryErrors(repo_err) => match repo_err {
            RemoteRepositoryError::PostgresErrors(e) => match e.kind {
                PostgresErrorKind::Database { .. } => None,
                _ => Some(Destination::Postgres),
            },
            RemoteRepositoryError::RedisErrors(_) => Some(Destination::Redis),
            RemoteRepositoryError::RedisUniqueErrorAndPosgresOk => None,
        },
        RemoteServiceError::SerderError(_) => None,
    }
}

/// The endpoint whose answer reports a failed save; `None` when the save
/// counts as a success (Postgres took the order, Redis already had it).
pub open spec fn save_failure_handler(err: RemoteServiceError) -> Option<Handler> {
    match err {
        RemoteServiceError::RemoteRepositoryErrors(repo_err) => match repo_err {
            RemoteRepositoryError::PostgresErrors(e) => match e.kind {
                PostgresErrorKind::Database { .. } => Some(Handler::GetOrder),
                _ => Some(Handler::AddOrder),
            },
            RemoteRepositoryError::RedisErrors(_) => Some(Handler::AddOrder),
            RemoteRepositoryError::RedisUniqueErrorAndPosgresOk => None,
        },
        RemoteServiceError::SerderError(_) => Some(Handler::AddOrder),
    }
}

/// Both queues of `after` are those of `before`.
pub open spec fn same_queues(before: InMemoryReposiory, after: InMemoryReposiory) -> bool {
    &&& after.queue(Destination::Postgres) == before.queue(Destination::Postgres)
    &&& after.queue(Destination::Redis) == before.queue(Destination::Redis)
}

/// After the remote service answered a save of `order` with `result`:
/// keeps the order in memory when the failure is worth a retry, and gives
/// the endpoint's answer.
pub fn save_order_outcome(
    memory: &mut InMemoryReposiory,
    order: Order,
    result: Result<(), RemoteServiceError>,
) -> (r: Result<(), RemoteServiceErrorResponse>)
    ensures
        match result {
            Ok(()) => r is Ok && same_queues(*old(memory), *final(memory)),
            Err(err) => {
                &&& match save_failure_handler(err) {
                    None => r is Ok,
                    Some(h) => r matches Err(resp) && resp.spec_handler() == h && resp.spec_err()
                        == err,
                }
                &&& match keeps_for_retry(err) {
                    None => same_queues(*old(memory), *final(memory)),
                    Some(d) => {
                        &&& final(memory).queue(d) == old(memory).queue(d).push(order)
                        &&& final(memory).queue(other_destination(d)) == old(memory).queue(
                            other_destination(d),
                        )
                    },
                }
            },
        },
        result matches Err(RemoteServiceError::RemoteRepositoryErrors(
            RemoteRepositoryError::PostgresErrors(e),
        )) ==> (e.kind is Database ==> {
            &&& final(memory).queue(Destination::Postgres) == old(memory).queue(Destination::Postgres)
            &&& final(memory).queue(Destination::Redis) == old(memory).queue(Destination::Redis)
            &&& r matches Err(resp) && resp.spec_handler() is GetOrder
        }),
        result matches Err(RemoteServiceError::RemoteRepositoryErrors(
            RemoteRepositoryError::PostgresErrors(e),
        )) ==> (!(e.kind is Database) ==> {
            &&& final(memory).queue(Destination::Postgres) == old(memory).queue(
                Destination::Postgres,
            ).push(order)
            &&& final(memory).queue(Destination::Redis) == old(memory).queue(Destination::Redis)
            &&& r matches Err(resp) && resp.spec_handler() is AddOrder
        }),
        result matches Err(RemoteServiceError::RemoteRepositoryErrors(
            RemoteRepositoryError::RedisErrors(_),
        )) ==> {
            &&& final(memory).queue(Destination::Redis) == old(memory).queue(Destination::Redis).push(
                order,
            )
            &&& final(memory).queue(Destination::Postgres) == old(memory).queue(Destination::Postgres)
            &&& r matches Err(resp) && resp.spec_handler() is AddOrder
        },
        result matches Err(RemoteServiceError::RemoteRepositoryErrors(
            RemoteRepositoryError::RedisUniqueErrorAndPosgresOk,
        )) ==> r is Ok && same_queues(*old(memory), *final(memory)),
        result matches Err(RemoteServiceError::SerderError(_)) ==> same_queues(
            *old(memory),
            *final(memory),
        ) && (r matches Err(resp) && resp.spec_handler() is AddOrder),
{
    match result {
        Ok(()) => Ok(()),
        Err(service_err) => {
            let keep = match &service_err {
                RemoteServiceError::RemoteRepositoryErrors(repo_err) => match repo_err {
                    RemoteRepositoryError::PostgresErrors(err) => match &err.kind {
                        PostgresErrorKind::Database { .. } => None,
                        _ => Some(Destination::Postgres),
                    },
                    RemoteRepositoryError::RedisErrors(_) => Some(Destination::Redis),
                    RemoteRepositoryError::RedisUniqueErrorAndPosgresOk => None,
                },
                RemoteServiceError::SerderError(_) => None,
            };
            let handler = match &service_err {
                RemoteServiceError::RemoteRepositoryErrors(repo_err) => match repo_err {
                    RemoteRepositoryError::PostgresErrors(err) => match &err.kind {
                        PostgresErrorKind::Database { .. } => Some(Handler::GetOrder),
                        _ => Some(Handler::AddOrder),
                    },
                    RemoteRepositoryError::RedisErrors(_) => Some(Handler::AddOrder),
                    RemoteRepositoryError::RedisUniqueErrorAndPosgresOk => None,
                },
                RemoteServiceError::SerderError(_) => Some(Handler::AddOrder),
            };
            match keep {
                Some(dest) => memory.save_raw_order(dest, order),
                None => {},
            }
            match handler {
                Some(h) => Err(RemoteServiceErrorResponse::new(h, service_err)),
                None => Ok(()),
            }
        },
    }
}

/// The answer of a lookup: its order, or its error answered on the lookup
/// endpoint.
pub fn get_order_outcome<E>(
    result: Result<(E, Option<String>), RemoteServiceError>,
) -> (r: Result<(E, Option<String>), RemoteServiceErrorResponse>)
    ensures
        match result {
            Ok(found) => r == Ok::<(E, Option<String>), RemoteServiceErrorResponse>(found),
            Err(err) => r matches Err(resp) && resp.spec_handler() == Handler::GetOrder
                && resp.spec_err() == err,
        },
{
    match result {
        Ok(found) => Ok(found),
        Err(err) => Err(RemoteServiceErrorResponse::new(Handler::GetOrder, err)),
    }
}

/// Whether a retried order goes back to the end of its queue: on any
/// failure except that its uid already exists where it was being saved
/// (Redis for the Redis queue; Postgres or Redis for the Postgres queue).
pub open spec fn retry_keeps(dest: Destination, result: Result<(), RemoteServiceError>) -> bool {
    match result {
        Ok(()) => false,
        Err(e) => match dest {
            Destination::Redis => !e.spec_is_unique_redis_err(),
            Destination::Postgres => !e.spec_is_unique_postgres_err()
                && !e.spec_is_unique_redis_err(),
        },
    }
}

/// The queue for `dest` after one retry step: the oldest order is taken
/// and, when the retry failed for a reason worth another try, goes back to
/// the end.
pub open spec fn after_retry(
    q: Seq<Order>,
    dest: Destination,
    result: Result<(), RemoteServiceError>,
) -> Seq<Order> {
    if q.len() == 0 {
        q
    } else if retry_keeps(dest, result) {
        q.drop_first().push(q[0])
    } else {
        q.drop_first()
    }
}

/// What a failed save leaves in memory and who answers it, by the kind of
/// failure: a database refusal keeps nothing and is answered on the lookup
/// endpoint; any other Postgres failure keeps the order for Postgres; a
/// Redis failure keeps it for Redis; Redis already holding the uid is a
/// success; a serialization failure keeps nothing.
pub proof fn lemma_save_failure_by_kind(
    pg: PostgresError,
    redis: crate::errors::remote_repository_error::RedisError,
    serde: SerdeError,
)
    ensures
        pg.kind is Database ==> keeps_for_retry(
            RemoteServiceError::RemoteRepositoryErrors(RemoteRepositoryError::PostgresErrors(pg)),
        ) is None && save_failure_handler(
            RemoteServiceError::RemoteRepositoryErrors(RemoteRepositoryError::PostgresErrors(pg)),
        ) == Some(Handler::GetOrder),
        !(pg.kind is Database) ==> keeps_for_retry(
            RemoteServiceError::RemoteRepositoryErrors(RemoteRepositoryError::PostgresErrors(pg)),
        ) == Some(Destination::Postgres) && save_failure_handler(
            RemoteServiceError::RemoteRepositoryErrors(RemoteRepositoryError::PostgresErrors(pg)),
        ) == Some(Handler::AddOrder),
        keeps_for_retry(
            RemoteServiceError::RemoteRepositoryErrors(RemoteRepositoryError::RedisErrors(redis)),
        ) == Some(Destination::Redis),
        save_failure_handler(
            RemoteServiceError::RemoteRepositoryErrors(RemoteRepositoryError::RedisErrors(redis)),
        ) == Some(Handler::AddOrder),
        keeps_for_retry(
            RemoteServiceError::RemoteRepositoryErrors(
                RemoteRepositoryError::RedisUniqueErrorAndPosgresOk,
            ),
        ) is None,
        save_failure_handler(
            RemoteServiceError::RemoteRepositoryErrors(
                RemoteRepositoryError::RedisUniqueErrorAndPosgresOk,
            ),
        ) is None,
        keeps_for_retry(RemoteServiceError::SerderError(serde)) is None,
        save_failure_handler(RemoteServiceError::SerderError(serde)) == Some(Handler::AddOrder),
{
}

/// Which retries put the order back: none that succeeded; on the Redis
/// queue every failure except Redis already holding the uid (a Redis
/// failure in particular); on the Postgres queue every failure except a
/// uid that Postgres or Redis already holds.
pub proof fn lemma_retry_keeps_by_error(
    redis: crate::errors::remote_repository_error::RedisError,
    e: RemoteServiceError,
)
    ensures
        !retry_keeps(Destination::Redis, Ok(())),
        !retry_keeps(Destination::Postgres, Ok(())),
        retry_keeps(Destination::Redis, Err(e)) <==> !(e matches RemoteServiceError::RemoteRepositoryErrors(
            RemoteRepositoryError::RedisUniqueErrorAndPosgresOk,
        )),
        retry_keeps(
            Destination::Redis,
            Err(RemoteServiceError::RemoteRepositoryErrors(RemoteRepositoryError::RedisErrors(redis))),
        ),
        retry_keeps(
            Destination::Postgres,
            Err(RemoteServiceError::RemoteRepositoryErrors(RemoteRepositoryError::RedisErrors(redis))),
        ),
        !retry_keeps(
            Destination::Postgres,
            Err(
                RemoteServiceError::RemoteRepositoryErrors(
                    RemoteRepositoryError::RedisUniqueErrorAndPosgresOk,
                ),
            ),
        ),
{
}

/// After a retry of `order` (taken from the queue for `dest`) was answered
/// with `result`: puts it back at the end of that queue unless it is done.
pub fn finish_retry(
    memory: &mut InMemoryReposiory,
    dest: Destination,
    order: Order,
    result: &Result<(), RemoteServiceError>,
) -> (kept: bool)
    ensures
        kept == retry_keeps(dest, *result),
        *result is Ok ==> !kept,
        dest is Redis ==> (*result matches Err(e) ==> (kept <==> !(e matches RemoteServiceError::RemoteRepositoryErrors(
            RemoteRepositoryError::RedisUniqueErrorAndPosgresOk,
        )))),
        dest is Redis ==> (*result matches Err(RemoteServiceError::RemoteRepositoryErrors(
            RemoteRepositoryError::RedisErrors(_),
        )) ==> kept && final(memory).queue(Destination::Redis) == old(memory).queue(
            Destination::Redis,
        ).push(order)),
        kept ==> final(memory).queue(dest) == old(memory).queue(dest).push(order),
        !kept ==> final(memory).queue(dest) == old(memory).queue(dest),
        final(memory).queue(other_destination(dest)) == old(memory).queue(other_destination(dest)),
{
    let keep = match result {
        Ok(()) => false,
        Err(err) => match dest {
            Destination::Redis => !err.is_unique_redis_err(),
            Destination::Postgres => !err.is_unique_postgres_err() && !err.is_unique_redis_err(),
        },
    };
    if keep {
        memory.save_raw_order(dest, order);
    }
    keep
}

/// A retry step loses no order: the orders waiting afterwards are those
/// waiting before, less the one retried when it was saved or already
/// existed.
pub proof fn lemma_retry_loses_no_order(
    q: Seq<Order>,
    dest: Destination,
    result: Result<(), RemoteServiceError>,
)
    requires
        q.len() > 0,
    ensures
        retry_keeps(dest, result) ==> after_retry(q, dest, result).to_multiset() == q.to_multiset(),
        !retry_keeps(dest, result) ==> after_retry(q, dest, result).to_multiset()
            == q.to_multiset().remove(q[0]),
{
    broadcast use vstd::seq_lib::group_to_multiset_ensures;

    let rest = q.drop_first();
    assert(q =~= seq![q[0]] + rest);
    vstd::seq_lib::lemma_multiset_commutative(seq![q[0]], rest);
    vstd::seq_lib::lemma_multiset_commutative(rest, seq![q[0]]);
    assert(rest.push(q[0]) =~= rest + seq![q[0]]);
    assert(seq![q[0]].to_multiset() =~= vstd::multiset::Multiset::<Order>::empty().insert(q[0]));
}

/// The two things that wake a background task.
#[derive(Clone, Copy, Debug, PartialEq, Eq, Structural)]
pub enum BackgroundEvent {
    /// Its interval elapsed.
    Tick,
    /// The server is shutting down.
    Cancelled,
}

/// What a background task does next.
#[derive(Clone, Copy, Debug, PartialEq, Eq, Structural)]
pub enum BackgroundAction {
    /// Retry the oldest order of its queue.
    RetryOne,
    /// Write its whole queue to its file and stop.
    SaveToFileAndStop,
}

/// The step a background task takes on `event`.
pub fn background_action(event: BackgroundEvent) -> (r: BackgroundAction)
    ensures
        event is Tick ==> r is RetryOne,
        event is Cancelled ==> r is SaveToFileAndStop,
{
    match event {
        BackgroundEvent::Tick => BackgroundAction::RetryOne,
        BackgroundEvent::Cancelled => BackgroundAction::SaveToFileAndStop,
    }
}

/// Seconds between two retries of the queue for `dest`: 10 for the
/// Postgres queue, 30 for the Redis queue.
pub fn retry_interval_secs(dest: Destination) -> (r: u64)
    ensures
        dest is Postgres ==> r == 10,
        dest is Redis ==> r == 30,
{
    match dest {
        Destination::Postgres => 10,
        Destination::Redis => 30,
    }
}

/// The orders read back from one file: those that parsed, in order; none
/// when the file held no raw order.
pub open spec fn restored(parsed: Option<Seq<Option<Order>>>) -> Seq<Order> {
    match parsed {
        Some(items) => somes(items),
        None => Seq::empty(),
    }
}

/// At start-up: fills the queues with the orders read back from the two
/// files (Postgres first, then Redis), dropping those that did not parse.
pub fn restore_raw_orders(
    memory: &mut InMemoryReposiory,
    postgres: Option<Vec<Option<Order>>>,
    redis: Option<Vec<Option<Order>>>,
)
    ensures
        final(memory).queue(Destination::Postgres) == restored(
            match postgres {
                Some(v) => Some(v@),
                None => None,
            },
        ),
        final(memory).queue(Destination::Redis) == restored(
            match redis {
                Some(v) => Some(v@),
                None => None,
            },
        ),
{
    let postgres_orders = match postgres {
        Some(orders) => into_queue(keep_parsed(orders)),
        None => VecDeque::new(),
    };
    let redis_orders = match redis {
        Some(orders) => into_queue(keep_parsed(orders)),
        None => VecDeque::new(),
    };
    memory.save_raw_orders((postgres_orders, redis_orders));
}

proof fn lemma_somes_of_all_present(q: Seq<Order>, decoded: Seq<Option<Order>>)
    requires
        decoded.len() == q.len(),
        forall|i: int| 0 <= i < q.len() ==> #[trigger] decoded[i] == Some(q[i]),
    ensures
        somes(decoded) == q,
    decreases q.len(),
{
    if q.len() > 0 {
        let dq = q.drop_last();
        let dd = decoded.drop_last();
        assert forall|i: int| 0 <= i < dq.len() implies #[trigger] dd[i] == Some(dq[i]) by {
            assert(decoded[i] == Some(q[i]));
        }
        lemma_somes_of_all_present(dq, dd);
        assert(decoded[q.len() - 1] == Some(q[q.len() - 1]));
        assert(dq.push(q.last()) =~= q);
    }
}

/// A graceful shutdown followed by a start-up gives a queue back: when each
/// order of the queue was written to its file as a text that reads back as
/// that order (non-empty, holding no delimiter once framed), reading the
/// file finds exactly those texts, and restoring the orders read from them
/// rebuilds the queue, in the same order.
pub proof fn lemma_restart_restores_queue(
    q: Seq<Order>,
    texts: Seq<Seq<char>>,
    decoded: Seq<Option<Order>>,
)
    requires
        texts.len() == q.len(),
        decoded.len() == q.len(),
        forall|i: int| 0 <= i < q.len() ==> #[trigger] texts[i].len() > 0 && frames_cleanly(texts[i]),
        forall|i: int| 0 <= i < q.len() ==> #[trigger] decoded[i] == Some(q[i]),
    ensures
        parsed_raw_orders(framed_all(texts)) == (if q.len() == 0 {
            None
        } else {
            Some(texts)
        }),
        restored(
            if q.len() == 0 {
                None
            } else {
                Some(decoded)
            },
        ) == q,
{
    lemma_raw_orders_round_trip(texts);
    lemma_somes_of_all_present(q, decoded);
}

/// Every error of a lookup is one its endpoint answers: the lookup path
/// yields only Postgres errors and decoding errors.
pub proof fn lemma_lookup_errors_are_answerable(postgres_err: PostgresError, serde_err: SerdeError)
    ensures
        is_answerable(
            Handler::GetOrder,
            RemoteServiceError::RemoteRepositoryErrors(
                RemoteRepositoryError::PostgresErrors(postgres_err),
            ),
        ),
        is_answerable(
            Handler::GetOrder,
            RemoteServiceError::SerderError(serde_err),
        ),
{
}

} // verus!
