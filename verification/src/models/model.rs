use super::delivery::{Delivery, DeliveryModel};
use super::item::{Item, ItemModel};
use super::payment::{Payment, PaymentModel};
use crate::domain::models::{opt_string_view, EntityForSave, UtcTimestamp};
use vstd::prelude::*;

verus! {

/// An order as it is received, stored and returned.
#[derive(Clone, Debug, PartialEq, Eq)]
pub struct Order {
    order_uid: String,
    track_number: String,
    entry: String,
    delivery: Delivery,
    payment: Payment,
    items: Vec<Item>,
    locale: String,
    internal_signature: Option<String>,
    customer_id: String,
    delivery_service: String,
    shardkey: String,
    sm_id: i64,
    date_created: UtcTimestamp,
    oof_shard: String,
}

/// The contents of an [`Order`].
pub struct OrderModel {
    pub order_uid: Seq<char>,
    pub track_number: Seq<char>,
    pub entry: Seq<char>,
    pub delivery: DeliveryModel,
    pub payment: PaymentModel,
    pub items: Seq<ItemModel>,
    pub locale: Seq<char>,
    pub internal_signature: Option<Seq<char>>,
    pub customer_id: Seq<char>,
    pub delivery_service: Seq<char>,
    pub shardkey: Seq<char>,
    pub sm_id: i64,
    pub date_created: UtcTimestamp,
    pub oof_shard: Seq<char>,
}

/// The contents of a list of items.
pub open spec fn items_view(items: Seq<Item>) -> Seq<ItemModel> {
    items.map_values(|it: Item| it@)
}

impl OrderModel {
    /// Every text field that must be filled holds at least one character,
    /// and so do those of the delivery, the payment and each item.
    pub open spec fn valid(self) -> bool {
        &&& self.order_uid.len() > 0
        &&& self.track_number.len() > 0
        &&& self.entry.len() > 0
        &&& self.delivery.valid()
        &&& self.payment.valid()
        &&& forall|i: int| 0 <= i < self.items.len() ==> (#[trigger] self.items[i]).valid()
        &&& self.locale.len() > 0
        &&& self.customer_id.len() > 0
        &&& self.delivery_service.len() > 0
        &&& self.shardkey.len() > 0
        &&& self.oof_shard.len() > 0
    }
}

impl View for Order {
    type V = OrderModel;

    closed spec fn view(&self) -> OrderModel {
        OrderModel {
            order_uid: self.order_uid@,
            track_number: self.track_number@,
            entry: self.entry@,
            delivery: self.delivery@,
            payment: self.payment@,
            items: items_view(self.items@),
            locale: self.locale@,
            internal_signature: opt_string_view(self.internal_signature),
            customer_id: self.customer_id@,
            delivery_service: self.delivery_service@,
            shardkey: self.shardkey@,
            sm_id: self.sm_id,
            date_created: self.date_created,
            oof_shard: self.oof_shard@,
        }
    }
}

/// A request body is valid exactly when every field that must be filled
/// holds at least one character: the eight text fields of the order, the
/// seven of its delivery, the four text fields of its payment that must be
/// filled, and the five of each item; any one of them empty makes it
/// invalid.
pub proof fn lemma_order_valid_by_field(o: OrderModel)
    ensures
        o.valid() <==> (o.order_uid.len() > 0 
        && o.track_number.len() > 0 
        && o.entry.len() > 0 
        && o.locale.len() > 0 
        && o.customer_id.len() > 0 
        && o.delivery_service.len() > 0 
        && o.shardkey.len() > 0 
        && o.oof_shard.len() > 0 
        && o.delivery.name.len() > 0 
        && o.delivery.phone.len() > 0 
        && o.delivery.zip.len() > 0 
        && o.delivery.city.len() > 0 
        && o.delivery.address.len() > 0 
        && o.delivery.region.len() > 0 
        && o.delivery.email.len() > 0 
        && o.payment.transaction.len() > 0 
        && o.payment.currency.len() > 0 
        && o.payment.provider.len() > 0 
        && o.payment.bank.len() > 0 
        && (forall|i: int| 0 <= i < o.items.len() ==> #[trigger] o.items[i].track_number.len() > 0 && o.items[i].rid.len() > 0 && o.items[i].name.len() > 0 && o.items[i].size.len() > 0 && o.items[i].brand.len() > 0)),
        o.customer_id.len() == 0 ==> !o.valid(),
        o.order_uid.len() == 0 ==> !o.valid(),
{
    if o.valid() {
        assert forall|i: int| 0 <= i < o.items.len() implies #[trigger] o.items[i].track_number.len() > 0
            && o.items[i].rid.len() > 0 && o.items[i].name.len() > 0 && o.items[i].size.len() > 0
            && o.items[i].brand.len() > 0 by {
            assert(o.items[i].valid());
        }
    }
}

impl Order {
    pub fn new(
        order_uid: String,
        track_number: String,
        entry: String,
        delivery: Delivery,
        payment: Payment,
        items: Vec<Item>,
        locale: String,
        internal_signature: Option<String>,
        customer_id: String,
        delivery_service: String,
        shardkey: String,
        sm_id: i64,
        date_created: UtcTimestamp,
        oof_shard: String,
    ) -> (r: Self)
        ensures
            r@ == (OrderModel {
                order_uid: order_uid@,
                track_number: track_number@,
                entry: entry@,
                delivery: delivery@,
                payment: payment@,
                items: items_view(items@),
                locale: locale@,
                internal_signature: opt_string_view(internal_signature),
                customer_id: customer_id@,
                delivery_service: delivery_service@,
                shardkey: shardkey@,
                sm_id: sm_id,
                date_created: date_created,
                oof_shard: oof_shard@,
            }),
    {
        Order {
            order_uid,
            track_number,
            entry,
            delivery,
            payment,
            items,
            locale,
            internal_signature,
            customer_id,
            delivery_service,
            shardkey,
            sm_id,
            date_created,
            oof_shard,
        }
    }

    /// Checks the order as a request body is checked before it is accepted:
    /// no text field that must be filled is empty, here or in the delivery,
    /// the payment or any item.
    pub fn validate(&self) -> (r: bool)
        ensures
            r == self@.valid(),
            self@.order_uid.len() == 0 ==> !r,
            self@.track_number.len() == 0 ==> !r,
            self@.entry.len() == 0 ==> !r,
            self@.locale.len() == 0 ==> !r,
            self@.customer_id.len() == 0 ==> !r,
            self@.delivery_service.len() == 0 ==> !r,
            self@.shardkey.len() == 0 ==> !r,
            self@.oof_shard.len() == 0 ==> !r,
            self@.delivery.name.len() == 0 ==> !r,
            self@.delivery.phone.len() == 0 ==> !r,
            self@.delivery.zip.len() == 0 ==> !r,
            self@.delivery.city.len() == 0 ==> !r,
            self@.delivery.address.len() == 0 ==> !r,
            self@.delivery.region.len() == 0 ==> !r,
            self@.delivery.email.len() == 0 ==> !r,
            self@.payment.transaction.len() == 0 ==> !r,
            self@.payment.currency.len() == 0 ==> !r,
            self@.payment.provider.len() == 0 ==> !r,
            self@.payment.bank.len() == 0 ==> !r,
            (exists|i: int| 0 <= i < self@.items.len() && (#[trigger] self@.items[i]).track_number.len() == 0) ==> !r,
            (exists|i: int| 0 <= i < self@.items.len() && (#[trigger] self@.items[i]).rid.len() == 0) ==> !r,
            (exists|i: int| 0 <= i < self@.items.len() && (#[trigger] self@.items[i]).name.len() == 0) ==> !r,
            (exists|i: int| 0 <= i < self@.items.len() && (#[trigger] self@.items[i]).size.len() == 0) ==> !r,
            (exists|i: int| 0 <= i < self@.items.len() && (#[trigger] self@.items[i]).brand.len() == 0) ==> !r,
    {
        if self.order_uid.as_str().is_empty() || self.track_number.as_str().is_empty()
            || self.entry.as_str().is_empty() || self.locale.as_str().is_empty()
            || self.customer_id.as_str().is_empty() || self.delivery_service.as_str().is_empty()
            || self.shardkey.as_str().is_empty() || self.oof_shard.as_str().is_empty() {
            return false;
        }
        if !self.delivery.validate() || !self.payment.validate() {
            return false;
        }
        let n = self.items.len();
        for k in 0..n
            invariant
                n == self.items.len(),
                forall|i: int| 0 <= i < k ==> (#[trigger] self@.items[i]).valid(),
        {
            assert(self@.items[k as int] == self.items@[k as int]@);
            if !self.items[k].validate() {
                return false;
            }
        }
        true
    }
}

impl EntityForSave for Order {
    type Delivery = Delivery;

    type Payment = Payment;

    type Item = Item;

    fn get_order_uid(&self) -> (r: &str)
        ensures
            r@ == self@.order_uid,
    {
        self.order_uid.as_str()
    }

    fn get_track_number(&self) -> (r: &str)
        ensures
            r@ == self@.track_number,
    {
        self.track_number.as_str()
    }

    fn get_entry(&self) -> (r: &str)
        ensures
            r@ == self@.entry,
    {
        self.entry.as_str()
    }

    fn get_delivery(&self) -> (r: &Delivery)
        ensures
            r@ == self@.delivery,
    {
        &self.delivery
    }

    fn get_payment(&self) -> (r: &Payment)
        ensures
            r@ == self@.payment,
    {
        &self.payment
    }

    fn get_items(&self) -> (r: &[Item])
        ensures
            items_view(r@) == self@.items,
    {
        self.items.as_slice()
    }

    fn get_locale(&self) -> (r: &str)
        ensures
            r@ == self@.locale,
    {
        self.locale.as_str()
    }

    fn get_internal_signature(&self) -> (r: Option<&str>)
        ensures
            match r {
                Some(x) => self@.internal_signature == Some(x@),
                None => self@.internal_signature is None,
            },
    {
        match &self.internal_signature {
            Some(s) => Some(s.as_str()),
            None => None,
        }
    }

    fn get_customer_id(&self) -> (r: &str)
        ensures
            r@ == self@.customer_id,
    {
        self.customer_id.as_str()
    }

    fn get_delivery_service(&self) -> (r: &str)
        ensures
            r@ == self@.delivery_service,
    {
        self.delivery_service.as_str()
    }

    fn get_shardkey(&self) -> (r: &str)
        ensures
            r@ == self@.shardkey,
    {
        self.shardkey.as_str()
    }

    fn get_sm_id(&self) -> (r: i64)
        ensures
            r == self@.sm_id,
    {
        self.sm_id
    }

    fn get_date_created(&self) -> (r: UtcTimestamp)
        ensures
            r == self@.date_created,
    {
        self.date_created
    }

    fn get_oof_shard(&self) -> (r: &str)
        ensures
            r@ == self@.oof_shard,
    {
        self.oof_shard.as_str()
    }
}

/// A request body that has been read as an order and checked.
pub struct JsonOrder<J>(pub J);

/// HTTP status 400.
pub const STATUS_BAD_REQUEST: u16 = 400;

impl JsonOrder<Order> {
    /// Accepts a request body that was read as an order (`None` when it was
    /// not valid JSON for one) only when the order passes `validate`;
    /// otherwise rejects it with status 400 and `"Invalid JSON body"`.
    pub fn accept(parsed: Option<Order>) -> (r: Result<JsonOrder<Order>, (u16, &'static str)>)
        ensures
            match parsed {
                Some(order) => if order@.valid() {
                    r matches Ok(accepted) && accepted.0 == order
                } else {
                    r matches Err(rejection) && rejection.0 == STATUS_BAD_REQUEST
                        && rejection.1@ == "Invalid JSON body"@
                },
                None => r matches Err(rejection) && rejection.0 == STATUS_BAD_REQUEST
                    && rejection.1@ == "Invalid JSON body"@,
            },
    {
        match parsed {
            Some(order) => {
                if order.validate() {
                    Ok(JsonOrder(order))
                } else {
                    Err((STATUS_BAD_REQUEST, "Invalid JSON body"))
                }
            },
            None => Err((STATUS_BAD_REQUEST, "Invalid JSON body")),
        }
    }
}

} // verus!
