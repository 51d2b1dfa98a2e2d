//! The read-only views of an order that the repositories write out, and the
//! destination of an order that is kept for a later retry.
use vstd::prelude::*;

verus! {

/// Which store an order kept in memory still has to reach: `Postgres` means
/// both Postgres and Redis, `Redis` means Redis alone.
#[derive(Clone, Copy, Debug, PartialEq, Eq, Structural)]
pub enum Destination {
    Postgres,
    Redis,
}

/// Field access to an item of an order.
pub trait ItemEntity {
    fn get_chrt_id(&self) -> i64;

    fn get_track_number(&self) -> &str;

    fn get_price(&self) -> i64;

    fn get_rid(&self) -> &str;

    fn get_name(&self) -> &str;

    fn get_sale(&self) -> i64;

    fn get_size(&self) -> &str;

    fn get_total_price(&self) -> i64;

    fn nm_id(&self) -> i64;

    fn get_brand(&self) -> &str;

    fn get_status(&self) -> i64;
}

/// Field access to the delivery of an order.
pub trait DeliveriEntity {
    fn get_name(&self) -> &str;

    fn get_phone(&self) -> &str;

    fn get_zip(&self) -> &str;

    fn get_city(&self) -> &str;

    fn get_address(&self) -> &str;

    fn get_region(&self) -> &str;

    fn get_email(&self) -> &str;
}

/// Field access to the payment of an order.
pub trait PaymentEntity {
    fn get_transaction(&self) -> &str;

    fn get_request_id(&self) -> Option<&str>;

    fn get_currency(&self) -> &str;

    fn get_provider(&self) -> &str;

    fn get_amount(&self) -> i64;

    fn get_payment_dt(&self) -> i64;

    fn get_bank(&self) -> &str;

    fn get_delivery_cost(&self) -> i64;

    fn get_goods_total(&self) -> i64;

    fn get_custom_fee(&self) -> i64;
}

/// The text of an optional string.
pub open spec fn opt_string_view(o: Option<String>) -> Option<Seq<char>> {
    match o {
        Some(s) => Some(s@),
        None => None,
    }
}

/// A point in time in UTC: whole seconds since the Unix epoch and the
/// nanoseconds within that second.
#[derive(Clone, Copy, Debug, PartialEq, Eq, Structural)]
pub struct UtcTimestamp {
    pub secs: i64,
    pub nanos: u32,
}

/// Field access to an order, as the repositories store it.
pub trait EntityForSave {
    type Delivery: DeliveriEntity;

    type Payment: PaymentEntity;

    type Item: ItemEntity;

    fn get_order_uid(&self) -> &str;

    fn get_track_number(&self) -> &str;

    fn get_entry(&self) -> &str;

    fn get_delivery(&self) -> &Self::Delivery;

    fn get_payment(&self) -> &Self::Payment;

    fn get_items(&self) -> &[Self::Item];

    fn get_locale(&self) -> &str;

    fn get_internal_signature(&self) -> Option<&str>;

    fn get_customer_id(&self) -> &str;

    fn get_delivery_service(&self) -> &str;

    fn get_shardkey(&self) -> &str;

    fn get_sm_id(&self) -> i64;

    fn get_date_created(&self) -> UtcTimestamp;

    fn get_oof_shard(&self) -> &str;
}

} // verus!
