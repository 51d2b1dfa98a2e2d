use crate::domain::models::{opt_string_view, PaymentEntity};
use vstd::prelude::*;

verus! {

/// How an order is paid.
#[derive(Clone, Debug, PartialEq, Eq)]
pub struct Payment {
    transaction: String,
    request_id: Option<String>,
    currency: String,
    provider: String,
    amount: i64,
    payment_dt: i64,
    bank: String,
    delivery_cost: i64,
    goods_total: i64,
    custom_fee: i64,
}

/// The contents of a [`Payment`].
pub struct PaymentModel {
    pub transaction: Seq<char>,
    pub request_id: Option<Seq<char>>,
    pub currency: Seq<char>,
    pub provider: Seq<char>,
    pub amount: i64,
    pub payment_dt: i64,
    pub bank: Seq<char>,
    pub delivery_cost: i64,
    pub goods_total: i64,
    pub custom_fee: i64,
}

impl View for Payment {
    type V = PaymentModel;

    closed spec fn view(&self) -> PaymentModel {
        PaymentModel {
            transaction: self.transaction@,
            request_id: opt_string_view(self.request_id),
            currency: self.currency@,
            provider: self.provider@,
            amount: self.amount,
            payment_dt: self.payment_dt,
            bank: self.bank@,
            delivery_cost: self.delivery_cost,
            goods_total: self.goods_total,
            custom_fee: self.custom_fee,
        }
    }
}

impl Payment {
    pub fn new(
        transaction: String,
        request_id: Option<String>,
        currency: String,
        provider: String,
        amount: i64,
        payment_dt: i64,
        bank: String,
        delivery_cost: i64,
        goods_total: i64,
        custom_fee: i64,
    ) -> (r: Self)
        ensures
            r@ == (PaymentModel {
                transaction: transaction@,
                request_id: opt_string_view(request_id),
                currency: currency@,
                provider: provider@,
                amount: amount,
                payment_dt: payment_dt,
                bank: bank@,
                delivery_cost: delivery_cost,
                goods_total: goods_total,
                custom_fee: custom_fee,
            }),
    {
        Payment { transaction, request_id, currency, provider, amount, payment_dt, bank, delivery_cost, goods_total, custom_fee }
    }

}

impl PaymentEntity for Payment {
    fn get_amount(&self) -> (r: i64)
        ensures
            r == self@.amount,
    {
        self.amount
    }

    fn get_transaction(&self) -> (r: &str)
        ensures
            r@ == self@.transaction,
    {
        self.transaction.as_str()
    }

    fn get_request_id(&self) -> (r: Option<&str>)
        ensures
            match r {
                Some(x) => self@.request_id == Some(x@),
                None => self@.request_id is None,
            },
    {
        match &self.request_id {
            Some(s) => Some(s.as_str()),
            None => None,
        }
    }

    fn get_currency(&self) -> (r: &str)
        ensures
            r@ == self@.currency,
    {
        self.currency.as_str()
    }

    fn get_provider(&self) -> (r: &str)
        ensures
            r@ == self@.provider,
    {
        self.provider.as_str()
    }

    fn get_payment_dt(&self) -> (r: i64)
        ensures
            r == self@.payment_dt,
    {
        self.payment_dt
    }

    fn get_bank(&self) -> (r: &str)
        ensures
            r@ == self@.bank,
    {
        self.bank.as_str()
    }

    fn get_delivery_cost(&self) -> (r: i64)
        ensures
            r == self@.delivery_cost,
    {
        self.delivery_cost
    }

    fn get_goods_total(&self) -> (r: i64)
        ensures
            r == self@.goods_total,
    {
        self.goods_total
    }

    fn get_custom_fee(&self) -> (r: i64)
        ensures
            r == self@.custom_fee,
    {
        self.custom_fee
    }
}

} // verus!
