use super::delivery::{Delivery, DeliveryModel};
use super::item::{Item, ItemModel};
use super::payment::{Payment, PaymentModel};
use crate::domain::models::{opt_string_view, EntityForSave, UtcTimestamp};
use vstd::prelude::*;

verus! {

/// An order as it is received, stored and returned.
#[derive(Clone, Debug, PartialEq, Eq)]
pub struct Order {
    order_uid: String,
    track_number: String,
    entry: String,
    delivery: Delivery,
    payment: Payment,
    items: Vec<Item>,
    locale: String,
    internal_signature: Option<String>,
    customer_id: String,
    delivery_service: String,
    shardkey: String,
    sm_id: i64,
    date_created: UtcTimestamp,
    oof_shard: String,
}

/// The contents of an [`Order`].
pub struct OrderModel {
    pub order_uid: Seq<char>,
    pub track_number: Seq<char>,
    pub entry: Seq<char>,
    pub delivery: DeliveryModel,
    pub payment: PaymentModel,
    pub items: Seq<ItemModel>,
    pub locale: Seq<char>,
    pub internal_signature: Option<Seq<char>>,
    pub customer_id: Seq<char>,
    pub delivery_service: Seq<char>,
    pub shardkey: Seq<char>,
    pub sm_id: i64,
    pub date_created: UtcTimestamp,
    pub oof_shard: Seq<char>,
}

/// The contents of a list of items.
pub open spec fn items_view(items: Seq<Item>) -> Seq<ItemModel> {
    items.map_values(|it: Item| it@)
}

impl View for Order {
    type V = OrderModel;

    closed spec fn view(&self) -> OrderModel {
        OrderModel {
            order_uid: self.order_uid@,
            track_number: self.track_number@,
            entry: self.entry@,
            delivery: self.delivery@,
            payment: self.payment@,
            items: items_view(self.items@),
            locale: self.locale@,
            internal_signature: opt_string_view(self.internal_signature),
            customer_id: self.customer_id@,
            delivery_service: self.delivery_service@,
            shardkey: self.shardkey@,
            sm_id: self.sm_id,
            date_created: self.date_created,
            oof_shard: self.oof_shard@,
        }
    }
}

impl Order {
    pub fn new(
        order_uid: String,
        track_number: String,
        entry: String,
        delivery: Delivery,
        payment: Payment,
        items: Vec<Item>,
        locale: String,
        internal_signature: Option<String>,
        customer_id: String,
        delivery_service: String,
        shardkey: String,
        sm_id: i64,
        date_created: UtcTimestamp,
        oof_shard: String,
    ) -> (r: Self)
        ensures
            r@ == (OrderModel {
                order_uid: order_uid@,
                track_number: track_number@,
                entry: entry@,
                delivery: delivery@,
                payment: payment@,
                items: items_view(items@),
                locale: locale@,
                internal_signature: opt_string_view(internal_signature),
                customer_id: customer_id@,
                delivery_service: delivery_service@,
                shardkey: shardkey@,
                sm_id: sm_id,
                date_created: date_created,
                oof_shard: oof_shard@,
            }),
    {
        Order {
            order_uid,
            track_number,
            entry,
            delivery,
            payment,
            items,
            locale,
            internal_signature,
            customer_id,
            delivery_service,
            shardkey,
            sm_id,
            date_created,
            oof_shard,
        }
    }
}

impl EntityForSave for Order {
    type Delivery = Delivery;

    type Payment = Payment;

    type Item = Item;

    fn get_order_uid(&self) -> (r: &str)
        ensures
            r@ == self@.order_uid,
    {
        self.order_uid.as_str()
    }

    fn get_track_number(&self) -> (r: &str)
        ensures
            r@ == self@.track_number,
    {
        self.track_number.as_str()
    }

    fn get_entry(&self) -> (r: &str)
        ensures
            r@ == self@.entry,
    {
        self.entry.as_str()
    }

    fn get_delivery(&self) -> (r: &Delivery)
        ensures
            r@ == self@.delivery,
    {
        &self.delivery
    }

    fn get_payment(&self) -> (r: &Payment)
        ensures
            r@ == self@.payment,
    {
        &self.payment
    }

    fn get_items(&self) -> (r: &[Item])
        ensures
            items_view(r@) == self@.items,
    {
        self.items.as_slice()
    }

    fn get_locale(&self) -> (r: &str)
        ensures
            r@ == self@.locale,
    {
        self.locale.as_str()
    }

    fn get_internal_signature(&self) -> (r: Option<&str>)
        ensures
            match r {
                Some(x) => self@.internal_signature == Some(x@),
                None => self@.internal_signature is None,
            },
    {
        match &self.internal_signature {
            Some(s) => Some(s.as_str()),
            None => None,
        }
    }

    fn get_customer_id(&self) -> (r: &str)
        ensures
            r@ == self@.customer_id,
    {
        self.customer_id.as_str()
    }

    fn get_delivery_service(&self) -> (r: &str)
        ensures
            r@ == self@.delivery_service,
    {
        self.delivery_service.as_str()
    }

    fn get_shardkey(&self) -> (r: &str)
        ensures
            r@ == self@.shardkey,
    {
        self.shardkey.as_str()
    }

    fn get_sm_id(&self) -> (r: i64)
        ensures
            r == self@.sm_id,
    {
        self.sm_id
    }

    fn get_date_created(&self) -> (r: UtcTimestamp)
        ensures
            r == self@.date_created,
    {
        self.date_created
    }

    fn get_oof_shard(&self) -> (r: &str)
        ensures
            r@ == self@.oof_shard,
    {
        self.oof_shard.as_str()
    }
}

} // verus!
