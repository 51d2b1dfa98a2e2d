use crate::domain::models::opt_string_view;
use crate::models::responses::STATUS_OK;
use vstd::prelude::*;

verus! {

/// What became of an order added through the first version of the API.
#[derive(Clone, Copy, Debug, PartialEq, Eq, Structural)]
pub enum OrderStatus {
    Accepted,
    NotAccepted,
    WillBeAccepted,
}

impl Default for OrderStatus {
    fn default() -> (r: Self)
        ensures
            r == OrderStatus::Accepted,
    {
        OrderStatus::Accepted
    }
}

/// The body of a reply to a request that adds an order.
#[derive(Clone, Debug, PartialEq, Eq)]
pub struct AddOrderResponse {
    postgres_err: Option<String>,
    redis_err: Option<String>,
    serde_err: Option<String>,
    order_status: OrderStatus,
}

/// The contents of an [`AddOrderResponse`].
pub struct AddOrderResponseModel {
    pub postgres_err: Option<Seq<char>>,
    pub redis_err: Option<Seq<char>>,
    pub serde_err: Option<Seq<char>>,
    pub order_status: OrderStatus,
}

impl View for AddOrderResponse {
    type V = AddOrderResponseModel;

    closed spec fn view(&self) -> AddOrderResponseModel {
        AddOrderResponseModel {
            postgres_err: opt_string_view(self.postgres_err),
            redis_err: opt_string_view(self.redis_err),
            serde_err: opt_string_view(self.serde_err),
            order_status: self.order_status,
        }
    }
}

impl AddOrderResponse {
    pub fn new(
        postgres_err: Option<String>,
        redis_err: Option<String>,
        serde_err: Option<String>,
        order_status: OrderStatus,
    ) -> (r: Self)
        ensures
            r@ == (AddOrderResponseModel {
                postgres_err: opt_string_view(postgres_err),
                redis_err: opt_string_view(redis_err),
                serde_err: opt_string_view(serde_err),
                order_status: order_status,
            }),
    {
        Self { postgres_err, redis_err, serde_err, order_status }
    }

    /// The HTTP status of a reply with this body: always 200.
    pub fn status_code(&self) -> (r: u16)
        ensures
            r == STATUS_OK,
    {
        STATUS_OK
    }

    /// The parts of the body: Postgres error, Redis error, serialization
    /// error, status.
    pub fn into_parts(self) -> (r: (Option<String>, Option<String>, Option<String>, OrderStatus))
        ensures
            opt_string_view(r.0) == self@.postgres_err,
            opt_string_view(r.1) == self@.redis_err,
            opt_string_view(r.2) == self@.serde_err,
            r.3 == self@.order_status,
    {
        (self.postgres_err, self.redis_err, self.serde_err, self.order_status)
    }
}

impl Default for AddOrderResponse {
    /// An empty body that reports the order as accepted.
    fn default() -> (r: Self)
        ensures
            r@ == (AddOrderResponseModel {
                postgres_err: None,
                redis_err: None,
                serde_err: None,
                order_status: OrderStatus::Accepted,
            }),
    {
        AddOrderResponse {
            postgres_err: None,
            redis_err: None,
            serde_err: None,
            order_status: OrderStatus::Accepted,
        }
    }
}

} // verus!
