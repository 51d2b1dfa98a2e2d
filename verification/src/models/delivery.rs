use crate::domain::models::DeliveriEntity;
use vstd::prelude::*;

verus! {

/// Where an order goes.
#[derive(Clone, Debug, PartialEq, Eq)]
pub struct Delivery {
    name: String,
    phone: String,
    zip: String,
    city: String,
    address: String,
    region: String,
    email: String,
}

/// The contents of a [`Delivery`].
pub struct DeliveryModel {
    pub name: Seq<char>,
    pub phone: Seq<char>,
    pub zip: Seq<char>,
    pub city: Seq<char>,
    pub address: Seq<char>,
    pub region: Seq<char>,
    pub email: Seq<char>,
}

impl DeliveryModel {
    /// Every text field that must be filled holds at least one character.
    pub open spec fn valid(self) -> bool {
        &&& self.name.len() > 0
        &&& self.phone.len() > 0
        &&& self.zip.len() > 0
        &&& self.city.len() > 0
        &&& self.address.len() > 0
        &&& self.region.len() > 0
        &&& self.email.len() > 0
    }
}

impl View for Delivery {
    type V = DeliveryModel;

    closed spec fn view(&self) -> DeliveryModel {
        DeliveryModel {
            name: self.name@,
            phone: self.phone@,
            zip: self.zip@,
            city: self.city@,
            address: self.address@,
            region: self.region@,
            email: self.email@,
        }
    }
}

impl Delivery {
    pub fn new(
        name: String,
        phone: String,
        zip: String,
        city: String,
        address: String,
        region: String,
        email: String,
    ) -> (r: Self)
        ensures
            r@ == (DeliveryModel {
                name: name@,
                phone: phone@,
                zip: zip@,
                city: city@,
                address: address@,
                region: region@,
                email: email@,
            }),
    {
        Delivery { name, phone, zip, city, address, region, email }
    }

    /// Checks that no text field that must be filled is empty.
    pub fn validate(&self) -> (r: bool)
        ensures
            r == self@.valid(),
            self@.name.len() == 0 ==> !r,
            self@.phone.len() == 0 ==> !r,
            self@.zip.len() == 0 ==> !r,
            self@.city.len() == 0 ==> !r,
            self@.address.len() == 0 ==> !r,
            self@.region.len() == 0 ==> !r,
            self@.email.len() == 0 ==> !r,
            (self@.name.len() > 0 && self@.phone.len() > 0 && self@.zip.len() > 0 && self@.city.len() > 0 && self@.address.len() > 0 && self@.region.len() > 0 && self@.email.len() > 0) ==> r,
    {
        !self.name.as_str().is_empty()
            && !self.phone.as_str().is_empty()
            && !self.zip.as_str().is_empty()
            && !self.city.as_str().is_empty()
            && !self.address.as_str().is_empty()
            && !self.region.as_str().is_empty()
            && !self.email.as_str().is_empty()
    }
}

impl DeliveriEntity for Delivery {
    fn get_name(&self) -> (r: &str)
        ensures
            r@ == self@.name,
    {
        self.name.as_str()
    }

    fn get_phone(&self) -> (r: &str)
        ensures
            r@ == self@.phone,
    {
        self.phone.as_str()
    }

    fn get_zip(&self) -> (r: &str)
        ensures
            r@ == self@.zip,
    {
        self.zip.as_str()
    }

    fn get_city(&self) -> (r: &str)
        ensures
            r@ == self@.city,
    {
        self.city.as_str()
    }

    fn get_address(&self) -> (r: &str)
        ensures
            r@ == self@.address,
    {
        self.address.as_str()
    }

    fn get_region(&self) -> (r: &str)
        ensures
            r@ == self@.region,
    {
        self.region.as_str()
    }

    fn get_email(&self) -> (r: &str)
        ensures
            r@ == self@.email,
    {
        self.email.as_str()
    }
}

} // verus!
