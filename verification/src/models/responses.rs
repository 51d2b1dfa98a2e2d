use super::model::{Order, OrderModel};
use crate::domain::models::opt_string_view;
use vstd::prelude::*;

verus! {

/// HTTP status 200.
pub const STATUS_OK: u16 = 200;

/// HTTP status 207.
pub const STATUS_MULTI_STATUS: u16 = 207;

/// HTTP status 404.
pub const STATUS_NOT_FOUND: u16 = 404;

/// HTTP status 409.
pub const STATUS_CONFLICT: u16 = 409;

/// HTTP status 500.
pub const STATUS_INTERNAL_SERVER_ERROR: u16 = 500;

/// What became of an order, as a reply tells the client.
#[derive(Clone, Copy, Debug, PartialEq, Eq, Structural)]
pub enum OrderStatus {
    Accepted,
    NotAccepted,
    WillBeAccepted,
    Unknown,
}

impl Default for OrderStatus {
    fn default() -> (r: Self)
        ensures
            r == OrderStatus::Accepted,
    {
        OrderStatus::Accepted
    }
}

/// The body of every reply of the order endpoints.
#[derive(Clone, Debug, PartialEq, Eq)]
pub struct OrderResponse {
    order: Option<Order>,
    postgres_err: Option<String>,
    redis_err: Option<String>,
    serde_err: Option<String>,
    order_status: OrderStatus,
}

/// The contents of an [`OrderResponse`].
pub struct OrderResponseModel {
    pub order: Option<OrderModel>,
    pub postgres_err: Option<Seq<char>>,
    pub redis_err: Option<Seq<char>>,
    pub serde_err: Option<Seq<char>>,
    pub order_status: OrderStatus,
}

/// The contents of an optional order.
pub open spec fn opt_order_view(o: Option<Order>) -> Option<OrderModel> {
    match o {
        Some(order) => Some(order@),
        None => None,
    }
}

impl View for OrderResponse {
    type V = OrderResponseModel;

    closed spec fn view(&self) -> OrderResponseModel {
        OrderResponseModel {
            order: opt_order_view(self.order),
            postgres_err: opt_string_view(self.postgres_err),
            redis_err: opt_string_view(self.redis_err),
            serde_err: opt_string_view(self.serde_err),
            order_status: self.order_status,
        }
    }
}

impl OrderResponseModel {
    /// The status of a reply that carries this body alone: 207 when Redis
    /// reported an error, 200 otherwise.
    pub open spec fn status(self) -> u16 {
        if self.redis_err is Some {
            STATUS_MULTI_STATUS
        } else {
            STATUS_OK
        }
    }
}

/// A reply body alone is answered 207 exactly when it carries a Redis
/// error, whatever else it holds (an order included), and 200 otherwise.
pub proof fn lemma_status_follows_redis_error(m: OrderResponseModel)
    ensures
        m.status() == STATUS_MULTI_STATUS <==> m.redis_err is Some,
        m.status() == STATUS_OK <==> m.redis_err is None,
        m.redis_err is Some && m.order is Some ==> m.status() == STATUS_MULTI_STATUS,
{
}

impl OrderResponse {
    pub fn new(
        order: Option<Order>,
        postgres_err: Option<String>,
        redis_err: Option<String>,
        serde_err: Option<String>,
        order_status: OrderStatus,
    ) -> (r: Self)
        ensures
            r@ == (OrderResponseModel {
                order: opt_order_view(order),
                postgres_err: opt_string_view(postgres_err),
                redis_err: opt_string_view(redis_err),
                serde_err: opt_string_view(serde_err),
                order_status: order_status,
            }),
    {
        Self { order, postgres_err, redis_err, serde_err, order_status }
    }

    /// Redis reported an error.
    pub fn is_redis_err(&self) -> (r: bool)
        ensures
            r == self@.redis_err is Some,
    {
        self.redis_err.is_some()
    }

    /// The HTTP status of a reply made of this body alone.
    pub fn status_code(&self) -> (r: u16)
        ensures
            r == self@.status(),
            self@.redis_err is Some ==> r == STATUS_MULTI_STATUS,
            self@.redis_err is None ==> r == STATUS_OK,
    {
        if self.is_redis_err() {
            STATUS_MULTI_STATUS
        } else {
            STATUS_OK
        }
    }

    /// The parts of the body: order, Postgres error, Redis error,
    /// serialization error, status.
    pub fn into_parts(self) -> (r: (
        Option<Order>,
        Option<String>,
        Option<String>,
        Option<String>,
        OrderStatus,
    ))
        ensures
            opt_order_view(r.0) == self@.order,
            opt_string_view(r.1) == self@.postgres_err,
            opt_string_view(r.2) == self@.redis_err,
            opt_string_view(r.3) == self@.serde_err,
            r.4 == self@.order_status,
    {
        (self.order, self.postgres_err, self.redis_err, self.serde_err, self.order_status)
    }
}

impl Default for OrderResponse {
    /// An empty body that reports the order as accepted.
    fn default() -> (r: Self)
        ensures
            r@ == (OrderResponseModel {
                order: None,
                postgres_err: None,
                redis_err: None,
                serde_err: None,
                order_status: OrderStatus::Accepted,
            }),
    {
        OrderResponse {
            order: None,
            postgres_err: None,
            redis_err: None,
            serde_err: None,
            order_status: OrderStatus::Accepted,
        }
    }
}

} // verus!
