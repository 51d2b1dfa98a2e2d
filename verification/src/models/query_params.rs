use vstd::prelude::*;

verus! {

/// The query of a request for one order.
#[derive(Clone, Debug, PartialEq, Eq)]
pub struct QueryParams {
    order_uid: String,
}

impl QueryParams {
    pub fn new(order_uid: String) -> (r: Self)
        ensures
            r.order_uid_view() == order_uid@,
    {
        QueryParams { order_uid }
    }

    /// The requested order's uid.
    pub closed spec fn order_uid_view(&self) -> Seq<char> {
        self.order_uid@
    }

    pub fn get_order_uid(&self) -> (r: &str)
        ensures
            r@ == self.order_uid_view(),
    {
        self.order_uid.as_str()
    }
}

} // verus!
