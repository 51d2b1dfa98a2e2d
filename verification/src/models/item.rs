use crate::domain::models::ItemEntity;
use vstd::prelude::*;

verus! {

/// One article of an order.
#[derive(Clone, Debug, PartialEq, Eq)]
pub struct Item {
    chrt_id: i64,
    track_number: String,
    price: i64,
    rid: String,
    name: String,
    sale: i64,
    size: String,
    total_price: i64,
    nm_id: i64,
    brand: String,
    status: i64,
}

/// The contents of a [`Item`].
pub struct ItemModel {
    pub chrt_id: i64,
    pub track_number: Seq<char>,
    pub price: i64,
    pub rid: Seq<char>,
    pub name: Seq<char>,
    pub sale: i64,
    pub size: Seq<char>,
    pub total_price: i64,
    pub nm_id: i64,
    pub brand: Seq<char>,
    pub status: i64,
}

impl ItemModel {
    /// Every text field that must be filled holds at least one character.
    pub open spec fn valid(self) -> bool {
        &&& self.track_number.len() > 0
        &&& self.rid.len() > 0
        &&& self.name.len() > 0
        &&& self.size.len() > 0
        &&& self.brand.len() > 0
    }
}

impl View for Item {
    type V = ItemModel;

    closed spec fn view(&self) -> ItemModel {
        ItemModel {
            chrt_id: self.chrt_id,
            track_number: self.track_number@,
            price: self.price,
            rid: self.rid@,
            name: self.name@,
            sale: self.sale,
            size: self.size@,
            total_price: self.total_price,
            nm_id: self.nm_id,
            brand: self.brand@,
            status: self.status,
        }
    }
}

impl Item {
    pub fn new(
        chrt_id: i64,
        track_number: String,
        price: i64,
        rid: String,
        name: String,
        sale: i64,
        size: String,
        total_price: i64,
        nm_id: i64,
        brand: String,
        status: i64,
    ) -> (r: Self)
        ensures
            r@ == (ItemModel {
                chrt_id: chrt_id,
                track_number: track_number@,
                price: price,
                rid: rid@,
                name: name@,
                sale: sale,
                size: size@,
                total_price: total_price,
                nm_id: nm_id,
                brand: brand@,
                status: status,
            }),
    {
        Item { chrt_id, track_number, price, rid, name, sale, size, total_price, nm_id, brand, status }
    }

    /// Checks that no text field that must be filled is empty.
    pub fn validate(&self) -> (r: bool)
        ensures
            r == self@.valid(),
            self@.track_number.len() == 0 ==> !r,
            self@.rid.len() == 0 ==> !r,
            self@.name.len() == 0 ==> !r,
            self@.size.len() == 0 ==> !r,
            self@.brand.len() == 0 ==> !r,
            (self@.track_number.len() > 0 && self@.rid.len() > 0 && self@.name.len() > 0 && self@.size.len() > 0 && self@.brand.len() > 0) ==> r,
    {
        !self.track_number.as_str().is_empty()
            && !self.rid.as_str().is_empty()
            && !self.name.as_str().is_empty()
            && !self.size.as_str().is_empty()
            && !self.brand.as_str().is_empty()
    }
}

impl ItemEntity for Item {
    fn get_chrt_id(&self) -> (r: i64)
        ensures
            r == self@.chrt_id,
    {
        self.chrt_id
    }

    fn get_track_number(&self) -> (r: &str)
        ensures
            r@ == self@.track_number,
    {
        self.track_number.as_str()
    }

    fn get_price(&self) -> (r: i64)
        ensures
            r == self@.price,
    {
        self.price
    }

    fn get_rid(&self) -> (r: &str)
        ensures
            r@ == self@.rid,
    {
        self.rid.as_str()
    }

    fn get_name(&self) -> (r: &str)
        ensures
            r@ == self@.name,
    {
        self.name.as_str()
    }

    fn get_sale(&self) -> (r: i64)
        ensures
            r == self@.sale,
    {
        self.sale
    }

    fn get_size(&self) -> (r: &str)
        ensures
            r@ == self@.size,
    {
        self.size.as_str()
    }

    fn get_total_price(&self) -> (r: i64)
        ensures
            r == self@.total_price,
    {
        self.total_price
    }

    fn nm_id(&self) -> (r: i64)
        ensures
            r == self@.nm_id,
    {
        self.nm_id
    }

    fn get_brand(&self) -> (r: &str)
        ensures
            r@ == self@.brand,
    {
        self.brand.as_str()
    }

    fn get_status(&self) -> (r: i64)
        ensures
            r == self@.status,
    {
        self.status
    }
}

} // verus!
